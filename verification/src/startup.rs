//! The startup sequence: which programs to start when the system comes up,
//! in which order, and after which waits.

use crate::command::{
    build_preempt_text, powershell, preempt_text, CommandView, OsCommand, Platform,
};
use crate::definition::{AppView, RegisteredApp};
use crate::registry::AppState;
use vstd::prelude::*;

verus! {

/// One step of the startup sequence. The steps are carried out one after
/// the other; none is skipped or repeated, whatever an earlier one came to.
#[derive(Debug, PartialEq, Eq)]
pub enum StartupStep {
    /// Run the command, which ends the instances of a program that are
    /// already there, and ignore what it comes to.
    Preempt(OsCommand),
    /// Wait this many seconds.
    Wait(u64),
    /// Start the application; a failure is reported and the sequence goes on.
    Launch { app_id: String, name: String, path: String, arguments: String },
}

/// A `StartupStep` with its strings as sequences of characters.
pub enum StartupStepView {
    Preempt(CommandView),
    Wait(u64),
    Launch { app_id: Seq<char>, name: Seq<char>, path: Seq<char>, arguments: Seq<char> },
}

impl View for StartupStep {
    type V = StartupStepView;

    open spec fn view(&self) -> StartupStepView {
        match self {
            StartupStep::Preempt(command) => StartupStepView::Preempt(command@),
            StartupStep::Wait(seconds) => StartupStepView::Wait(*seconds),
            StartupStep::Launch { app_id, name, path, arguments } => StartupStepView::Launch {
                app_id: app_id@,
                name: name@,
                path: path@,
                arguments: arguments@,
            },
        }
    }
}

/// The step that starts `app`.
pub open spec fn launch_step(app: AppView) -> StartupStepView {
    StartupStepView::Launch {
        app_id: app.id,
        name: app.name,
        path: app.path,
        arguments: app.arguments,
    }
}

/// Whether instances of `app` that are already there are ended before it
/// is started: where its definition forbids a second instance and the
/// platform can end a process by name.
pub open spec fn preempts(app: AppView, platform: Platform) -> bool {
    app.prevent_duplicate && platform == Platform::Windows
}

/// The steps for one enabled definition: end the instances that are already
/// there where that is called for, wait for the delay where there is one,
/// start the program.
pub open spec fn app_steps(app: AppView, platform: Platform) -> Seq<StartupStepView> {
    let preempt = if preempts(app, platform) {
        seq![StartupStepView::Preempt(powershell(preempt_text(app.name)))]
    } else {
        Seq::empty()
    };
    let wait = if app.delay > 0 {
        seq![StartupStepView::Wait(app.delay)]
    } else {
        Seq::empty()
    };
    preempt + wait + seq![launch_step(app)]
}

/// The startup sequence: the steps of every enabled definition, in the
/// order of the list.
pub open spec fn startup_steps(apps: Seq<AppView>, platform: Platform) -> Seq<StartupStepView>
    decreases apps.len(),
{
    if apps.len() == 0 {
        Seq::empty()
    } else {
        startup_steps(apps.drop_last(), platform) + if apps.last().enabled {
            app_steps(apps.last(), platform)
        } else {
            Seq::empty()
        }
    }
}

/// The ids of the applications that a sequence of steps starts, in order.
pub open spec fn launched(steps: Seq<StartupStepView>) -> Seq<Seq<char>>
    decreases steps.len(),
{
    if steps.len() == 0 {
        Seq::empty()
    } else {
        match steps.last() {
            StartupStepView::Launch { app_id, .. } => launched(steps.drop_last()).push(app_id),
            _ => launched(steps.drop_last()),
        }
    }
}

/// The seconds that a sequence of steps waits in all.
pub open spec fn total_wait(steps: Seq<StartupStepView>) -> nat
    decreases steps.len(),
{
    if steps.len() == 0 {
        0
    } else {
        match steps.last() {
            StartupStepView::Wait(seconds) => total_wait(steps.drop_last()) + seconds as nat,
            _ => total_wait(steps.drop_last()),
        }
    }
}

/// The ids of the enabled definitions, in the order of the list.
pub open spec fn enabled_ids(apps: Seq<AppView>) -> Seq<Seq<char>>
    decreases apps.len(),
{
    if apps.len() == 0 {
        Seq::empty()
    } else if apps.last().enabled {
        enabled_ids(apps.drop_last()).push(apps.last().id)
    } else {
        enabled_ids(apps.drop_last())
    }
}

/// The sum of the delays of the enabled definitions.
pub open spec fn enabled_delay(apps: Seq<AppView>) -> nat
    decreases apps.len(),
{
    if apps.len() == 0 {
        0
    } else if apps.last().enabled {
        enabled_delay(apps.drop_last()) + apps.last().delay as nat
    } else {
        enabled_delay(apps.drop_last())
    }
}

/// What two sequences of steps start one after the other, and how long they
/// wait together.
pub proof fn lemma_steps_joined(first: Seq<StartupStepView>, second: Seq<StartupStepView>)
    ensures
        launched(first + second) == launched(first) + launched(second),
        total_wait(first + second) == total_wait(first) + total_wait(second),
    decreases second.len(),
{
    if second.len() == 0 {
        assert(first + second =~= first);
        assert(launched(first) + launched(second) =~= launched(first));
    } else {
        let all = first + second;
        assert(all.drop_last() =~= first + second.drop_last());
        assert(all.last() == second.last());
        lemma_steps_joined(first, second.drop_last());
        assert(launched(all) =~= launched(first) + launched(second));
    }
}

/// What a single step starts, and how long it waits.
pub proof fn lemma_single_step(step: StartupStepView)
    ensures
        launched(seq![step]) == match step {
            StartupStepView::Launch { app_id, .. } => seq![app_id],
            _ => Seq::<Seq<char>>::empty(),
        },
        total_wait(seq![step]) == match step {
            StartupStepView::Wait(seconds) => seconds as nat,
            _ => 0nat,
        },
{
    let one = seq![step];
    assert(one.drop_last() =~= Seq::<StartupStepView>::empty());
    assert(one.last() == step);
    assert(launched(one.drop_last()) =~= Seq::<Seq<char>>::empty());
    assert(total_wait(one.drop_last()) == 0);
    match step {
        StartupStepView::Launch { app_id, .. } => {
            assert(launched(one) =~= seq![app_id]);
        },
        _ => {},
    }
}

/// The steps of one definition start that application and nothing else,
/// and wait for its delay.
pub proof fn lemma_app_steps(app: AppView, platform: Platform)
    ensures
        launched(app_steps(app, platform)) == seq![app.id],
        total_wait(app_steps(app, platform)) == app.delay,
        app_steps(app, platform).last() == launch_step(app),
{
    let preempt = if preempts(app, platform) {
        seq![StartupStepView::Preempt(powershell(preempt_text(app.name)))]
    } else {
        Seq::empty()
    };
    let wait = if app.delay > 0 {
        seq![StartupStepView::Wait(app.delay)]
    } else {
        Seq::empty()
    };
    let launch = seq![launch_step(app)];
    if preempts(app, platform) {
        lemma_single_step(preempt[0]);
    }
    if app.delay > 0 {
        lemma_single_step(wait[0]);
    }
    lemma_single_step(launch[0]);
    lemma_steps_joined(preempt, wait);
    lemma_steps_joined(preempt + wait, launch);
    assert(launched(preempt + wait + launch) =~= seq![app.id]);
}

/// The startup sequence starts the enabled definitions, each once and in
/// the order of the list, starts no other, and waits in all for the sum of
/// their delays.
pub proof fn lemma_startup_steps(apps: Seq<AppView>, platform: Platform)
    ensures
        launched(startup_steps(apps, platform)) == enabled_ids(apps),
        total_wait(startup_steps(apps, platform)) == enabled_delay(apps),
    decreases apps.len(),
{
    if apps.len() > 0 {
        let init = startup_steps(apps.drop_last(), platform);
        lemma_startup_steps(apps.drop_last(), platform);
        if apps.last().enabled {
            let own = app_steps(apps.last(), platform);
            lemma_app_steps(apps.last(), platform);
            lemma_steps_joined(init, own);
            assert(launched(init) + seq![apps.last().id] =~= launched(init).push(apps.last().id));
        } else {
            assert(init + Seq::<StartupStepView>::empty() =~= init);
        }
    }
}

impl AppState {
    /// Lays out the startup sequence for the definitions as they are now.
    pub fn startup_plan(&self, platform: Platform) -> (steps: Vec<StartupStep>)
        ensures
            steps@.map_values(|s: StartupStep| s@) == startup_steps(self.apps(), platform),
    {
        let mut steps: Vec<StartupStep> = Vec::new();
        let mut i: usize = 0;
        assert(self.apps().take(0) =~= Seq::<AppView>::empty());
        assert(steps@.map_values(|s: StartupStep| s@) =~= Seq::<StartupStepView>::empty());
        while i < self.config.registered_apps.len()
            invariant
                i <= self.config.registered_apps.len(),
                steps@.map_values(|s: StartupStep| s@) == startup_steps(
                    self.apps().take(i as int),
                    platform,
                ),
            decreases self.config.registered_apps.len() - i,
        {
            let app = &self.config.registered_apps[i];
            let ghost before = steps@.map_values(|s: StartupStep| s@);
            let ghost upto = self.apps().take(i + 1);
            proof {
                assert(upto.drop_last() =~= self.apps().take(i as int));
                assert(upto.last() == app@);
            }
            if app.enabled {
                push_app_steps(&mut steps, app, platform);
            } else {
                assert(before + Seq::<StartupStepView>::empty() =~= before);
            }
            i += 1;
        }
        assert(self.apps().take(i as int) =~= self.apps());
        steps
    }
}

/// Appends the steps for one enabled definition.
fn push_app_steps(steps: &mut Vec<StartupStep>, app: &RegisteredApp, platform: Platform)
    ensures
        final(steps)@.map_values(|s: StartupStep| s@) == old(steps)@.map_values(
            |s: StartupStep| s@,
        ) + app_steps(app@, platform),
{
    let ghost before = steps@.map_values(|s: StartupStep| s@);
    let on_windows = match platform {
        Platform::Windows => true,
        Platform::Other => false,
    };
    if app.prevent_duplicate && on_windows {
        steps.push(
            StartupStep::Preempt(OsCommand::powershell(build_preempt_text(app.name.as_str()))),
        );
    }
    if app.delay > 0 {
        steps.push(StartupStep::Wait(app.delay));
    }
    steps.push(
        StartupStep::Launch {
            app_id: app.id.clone(),
            name: app.name.clone(),
            path: app.path.clone(),
            arguments: app.arguments.clone(),
        },
    );
    assert(steps@.map_values(|s: StartupStep| s@) =~= before + app_steps(app@, platform));
}

} // verus!
