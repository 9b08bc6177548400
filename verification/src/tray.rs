//! What Clam does when the user clicks its tray icon or picks a menu item,
//! and what it does when it starts.
//!
//! `Clam` is a state machine. The host program hands it an `Event`; the
//! machine answers with a `Step`: effects for the host to carry out in
//! order, and at most one `Query` whose `Answer` the machine waits for. The
//! host carries out the effects, answers the query, and goes on until a step
//! has no query.
use vstd::prelude::*;
use crate::power::{
    default_settings, fresh_read_job, fresh_write_job, is_access_denied, law_read_captures_values,
    law_restore_writes_back_captured, read_current_settings, read_ok_replies, read_run,
    settings_plan, state_key, stay_awake_plan, write_defaults, write_ok_replies, write_run,
    write_settings, write_stay_awake, PowerQuery, PowerReply, PowerWrite, Progress, ReadJob,
    WriteJob, ERROR_ACCESS_DENIED,
};
use crate::state::SavedState;
use crate::text::Notice;

verus! {

/// Something that happens to Clam.
#[derive(Clone, Copy, Debug, PartialEq, Eq, Structural)]
pub enum Event {
    /// The program starts: put back the settings of a run that ended while
    /// stay-awake was on, then show the icon.
    Launch,
    /// Left click on the tray icon: switch stay-awake on or off.
    LeftClick,
    /// Right click on the tray icon: show the menu.
    RightClick,
    /// Menu item "Reset to normal defaults".
    MenuReset,
    /// Menu item "Start with Windows".
    MenuAutostart,
    /// Menu item "Quit".
    MenuQuit,
    /// The taskbar was (re)created, e.g. after explorer.exe restarted.
    TaskbarCreated,
    /// The window is being destroyed.
    Destroy,
}

/// A question that the host answers.
#[derive(Clone, Copy, Debug, PartialEq, Eq, Structural)]
pub enum Query {
    /// A power-policy call; answered by `Answer::Power`.
    Power(PowerQuery),
    /// Write the saved-state file; answered by `Answer::Saved`.
    SaveState(SavedState),
    /// Read the saved-state file; answered by `Answer::Loaded`.
    LoadState,
    /// Is the saved-state file there? Answered by `Answer::Exists`.
    StateFileExists,
    /// Does Windows start Clam at logon? Answered by `Answer::Autostart`.
    AutostartEnabled,
}

/// The host's answer to a `Query`.
#[derive(Debug, PartialEq, Eq)]
pub enum Answer {
    Power(PowerReply),
    /// `Err` holds the reason, as shown to the user.
    Saved(Result<(), String>),
    /// `None` when there is no file or it cannot be read back.
    Loaded(Option<SavedState>),
    Exists(bool),
    Autostart(bool),
}

/// Something the host does, with nothing to answer.
#[derive(Debug, PartialEq, Eq)]
pub enum Effect {
    /// Delete the saved-state file, if it is there.
    ClearState,
    /// Add the tray icon for this state.
    AddIcon { active: bool },
    /// Change the tray icon and its tooltip to this state.
    UpdateIcon { active: bool },
    /// Remove the tray icon.
    RemoveIcon,
    /// Show a notification balloon.
    Notify(Notice),
    /// Show the menu for this state, with "Start with Windows" checked or not.
    ShowMenu { active: bool, autostart: bool },
    /// Make Windows start Clam at logon, or stop doing so.
    SetAutostart(bool),
    /// End the message loop.
    PostQuit,
}

/// What the machine hands back: effects to carry out in order, then the
/// query to answer, if any.
pub struct Step {
    pub effects: Vec<Effect>,
    pub query: Option<Query>,
}

/// Why settings are being written.
#[derive(Clone, Copy, Debug, PartialEq, Eq, Structural)]
pub enum Purpose {
    /// Switching stay-awake on.
    StayAwake,
    /// Switching stay-awake off; `had_saved` tells whether the saved settings
    /// (rather than the defaults) are being written.
    Restore { had_saved: bool },
    /// "Reset to normal defaults".
    Reset,
    /// Quitting while stay-awake is on.
    Quit,
    /// Starting after a run that ended while stay-awake was on.
    Recover,
}

/// Why the saved state is being loaded.
#[derive(Clone, Copy, Debug, PartialEq, Eq, Structural)]
pub enum LoadFor {
    Disable,
    Quit,
    Recover,
}

/// What the machine is waiting for.
#[derive(Clone, Copy, Debug, PartialEq, Eq, Structural)]
pub enum Wait {
    /// Nothing: ready for the next event.
    Idle,
    /// Whether the saved-state file is there, at launch.
    StateFile,
    /// The answers of the job that reads the current settings.
    Capture(ReadJob),
    /// Whether the captured settings were saved.
    Save(SavedState),
    /// The answers of a job that writes settings.
    Write(WriteJob, Purpose),
    /// The saved state.
    Load(LoadFor),
    /// Whether autostart is on, to show the menu.
    AutostartForMenu,
    /// Whether autostart is on, to switch it.
    AutostartForToggle,
}

/// The tray application: whether stay-awake is on, and what it waits for.
#[derive(Clone, Copy, Debug, PartialEq, Eq, Structural)]
pub struct Clam {
    pub active: bool,
    pub wait: Wait,
}

pub open spec fn idle(active: bool) -> Clam {
    Clam { active, wait: Wait::Idle }
}

pub open spec fn waiting(active: bool, wait: Wait) -> Clam {
    Clam { active, wait }
}

/// The query that the machine waits to have answered.
pub open spec fn pending(m: Clam) -> Option<Query> {
    match m.wait {
        Wait::Idle => None,
        Wait::StateFile => Some(Query::StateFileExists),
        Wait::Capture(j) => Some(Query::Power(j.pending())),
        Wait::Save(s) => Some(Query::SaveState(s)),
        Wait::Write(j, _) => Some(Query::Power(j.pending())),
        Wait::Load(_) => Some(Query::LoadState),
        Wait::AutostartForMenu => Some(Query::AutostartEnabled),
        Wait::AutostartForToggle => Some(Query::AutostartEnabled),
    }
}

/// The job that writes the saved settings back, or the defaults when there
/// are none.
pub open spec fn restore_job(saved: Option<SavedState>) -> WriteJob {
    match saved {
        Some(s) => fresh_write_job(settings_plan(s)),
        None => fresh_write_job(settings_plan(default_settings())),
    }
}

/// The notice for a failed stay-awake write.
pub open spec fn enable_failure(c: u32) -> Notice {
    if c == ERROR_ACCESS_DENIED {
        Notice::AccessDenied
    } else {
        Notice::WriteFailed(c)
    }
}

/// The machine after an event. While it waits for an answer, an event
/// changes nothing.
pub open spec fn on_event(m: Clam, e: Event) -> (Clam, Seq<Effect>) {
    if m.wait != Wait::Idle {
        (m, seq![])
    } else {
        match e {
            Event::Launch => (waiting(m.active, Wait::StateFile), seq![]),
            Event::LeftClick => if m.active {
                (waiting(m.active, Wait::Load(LoadFor::Disable)), seq![])
            } else {
                (waiting(m.active, Wait::Capture(fresh_read_job())), seq![])
            },
            Event::RightClick => (waiting(m.active, Wait::AutostartForMenu), seq![]),
            Event::MenuReset => (
                waiting(m.active, Wait::Write(fresh_write_job(settings_plan(default_settings())), Purpose::Reset)),
                seq![],
            ),
            Event::MenuAutostart => (waiting(m.active, Wait::AutostartForToggle), seq![]),
            Event::MenuQuit => if m.active {
                (waiting(m.active, Wait::Load(LoadFor::Quit)), seq![])
            } else {
                (m, seq![Effect::RemoveIcon, Effect::PostQuit])
            },
            Event::TaskbarCreated => (m, seq![Effect::AddIcon { active: m.active }]),
            Event::Destroy => (m, seq![Effect::PostQuit]),
        }
    }
}

/// The machine once a write job is over, and the effects that follow.
pub open spec fn finish_write(active: bool, purpose: Purpose, r: Result<(), u32>) -> (Clam, Seq<Effect>) {
    match purpose {
        Purpose::StayAwake => match r {
            Ok(()) => (idle(true), seq![Effect::UpdateIcon { active: true }, Effect::Notify(Notice::StayAwakeOn)]),
            Err(c) => (idle(active), seq![Effect::ClearState, Effect::Notify(enable_failure(c))]),
        },
        Purpose::Restore { had_saved } => match r {
            Ok(()) => (
                idle(false),
                seq![
                    Effect::ClearState,
                    Effect::UpdateIcon { active: false },
                    Effect::Notify(if had_saved { Notice::OffRestored } else { Notice::OffDefaults }),
                ],
            ),
            Err(c) => (idle(active), seq![Effect::Notify(Notice::RestoreFailed(c))]),
        },
        Purpose::Reset => match r {
            Ok(()) => (
                idle(false),
                seq![Effect::ClearState, Effect::UpdateIcon { active: false }, Effect::Notify(Notice::ResetDone)],
            ),
            Err(c) => (idle(active), seq![Effect::Notify(Notice::ResetFailed(c))]),
        },
        Purpose::Quit => (idle(active), seq![Effect::ClearState, Effect::RemoveIcon, Effect::PostQuit]),
        Purpose::Recover => (idle(false), seq![Effect::ClearState, Effect::AddIcon { active: false }]),
    }
}

/// The machine after an answer. An answer of the wrong kind for the pending
/// query changes nothing.
pub open spec fn on_answer(m: Clam, a: Answer) -> (Clam, Seq<Effect>) {
    match (m.wait, a) {
        (Wait::StateFile, Answer::Exists(true)) => (waiting(m.active, Wait::Load(LoadFor::Recover)), seq![]),
        (Wait::StateFile, Answer::Exists(false)) => (idle(m.active), seq![Effect::AddIcon { active: m.active }]),
        (Wait::Capture(j), Answer::Power(r)) => match j.next(r) {
            (j2, Progress::Pending) => (waiting(m.active, Wait::Capture(j2)), seq![]),
            (_, Progress::Done(Ok(s))) => (waiting(m.active, Wait::Save(s)), seq![]),
            (_, Progress::Done(Err(c))) => (idle(m.active), seq![Effect::Notify(Notice::ReadFailed(c))]),
        },
        (Wait::Save(_), Answer::Saved(Ok(()))) => (
            waiting(m.active, Wait::Write(fresh_write_job(stay_awake_plan()), Purpose::StayAwake)),
            seq![],
        ),
        (Wait::Save(_), Answer::Saved(Err(e))) => (idle(m.active), seq![Effect::Notify(Notice::SaveFailed(e))]),
        (Wait::Write(j, purpose), Answer::Power(r)) => match j.next(r) {
            (j2, Progress::Pending) => (waiting(m.active, Wait::Write(j2, purpose)), seq![]),
            (_, Progress::Done(res)) => finish_write(m.active, purpose, res),
        },
        (Wait::Load(LoadFor::Disable), Answer::Loaded(saved)) => (
            waiting(m.active, Wait::Write(restore_job(saved), Purpose::Restore { had_saved: saved is Some })),
            seq![],
        ),
        (Wait::Load(LoadFor::Quit), Answer::Loaded(saved)) => (
            waiting(m.active, Wait::Write(restore_job(saved), Purpose::Quit)),
            seq![],
        ),
        (Wait::Load(LoadFor::Recover), Answer::Loaded(saved)) => (
            waiting(m.active, Wait::Write(restore_job(saved), Purpose::Recover)),
            seq![],
        ),
        (Wait::AutostartForMenu, Answer::Autostart(on)) => (
            idle(m.active),
            seq![Effect::ShowMenu { active: m.active, autostart: on }],
        ),
        (Wait::AutostartForToggle, Answer::Autostart(on)) => (idle(m.active), seq![Effect::SetAutostart(!on)]),
        _ => (m, seq![]),
    }
}

impl Clam {
    /// A machine at start: stay-awake off, nothing pending.
    pub fn new() -> (m: Clam)
        ensures
            m == idle(false),
    {
        Clam { active: false, wait: Wait::Idle }
    }

    /// Whether stay-awake is on.
    pub fn is_active(&self) -> (b: bool)
        ensures
            b == self.active,
    {
        self.active
    }

    /// The query that the machine waits to have answered, if any.
    pub fn query(&self) -> (q: Option<Query>)
        ensures
            q == pending(*self),
    {
        match self.wait {
            Wait::Idle => None,
            Wait::StateFile => Some(Query::StateFileExists),
            Wait::Capture(j) => Some(Query::Power(j.query())),
            Wait::Save(s) => Some(Query::SaveState(s)),
            Wait::Write(j, _) => Some(Query::Power(j.query())),
            Wait::Load(_) => Some(Query::LoadState),
            Wait::AutostartForMenu => Some(Query::AutostartEnabled),
            Wait::AutostartForToggle => Some(Query::AutostartEnabled),
        }
    }

    /// Takes an event.
    pub fn handle(&mut self, e: Event) -> (step: Step)
        ensures
            (*final(self), step.effects@) == on_event(*old(self), e),
            step.query == pending(*final(self)),
    {
        let mut effects: Vec<Effect> = Vec::new();
        if self.wait != Wait::Idle {
            let q = self.query();
            return Step { effects, query: q };
        }
        match e {
            Event::Launch => {
                self.wait = Wait::StateFile;
            },
            Event::LeftClick => {
                if self.active {
                    self.wait = Wait::Load(LoadFor::Disable);
                } else {
                    self.wait = Wait::Capture(read_current_settings());
                }
            },
            Event::RightClick => {
                self.wait = Wait::AutostartForMenu;
            },
            Event::MenuReset => {
                self.wait = Wait::Write(write_defaults(), Purpose::Reset);
            },
            Event::MenuAutostart => {
                self.wait = Wait::AutostartForToggle;
            },
            Event::MenuQuit => {
                if self.active {
                    self.wait = Wait::Load(LoadFor::Quit);
                } else {
                    effects.push(Effect::RemoveIcon);
                    effects.push(Effect::PostQuit);
                }
            },
            Event::TaskbarCreated => {
                effects.push(Effect::AddIcon { active: self.active });
            },
            Event::Destroy => {
                effects.push(Effect::PostQuit);
            },
        }
        proof {
            assert(effects@ =~= on_event(*old(self), e).1);
        }
        let q = self.query();
        Step { effects, query: q }
    }

    fn finish(&mut self, purpose: Purpose, r: Result<(), u32>) -> (effects: Vec<Effect>)
        ensures
            (*final(self), effects@) == finish_write(old(self).active, purpose, r),
    {
        let mut effects: Vec<Effect> = Vec::new();
        self.wait = Wait::Idle;
        match purpose {
            Purpose::StayAwake => match r {
                Ok(()) => {
                    self.active = true;
                    effects.push(Effect::UpdateIcon { active: true });
                    effects.push(Effect::Notify(Notice::StayAwakeOn));
                },
                Err(c) => {
                    effects.push(Effect::ClearState);
                    let n = if is_access_denied(c) {
                        Notice::AccessDenied
                    } else {
                        Notice::WriteFailed(c)
                    };
                    effects.push(Effect::Notify(n));
                },
            },
            Purpose::Restore { had_saved } => match r {
                Ok(()) => {
                    self.active = false;
                    effects.push(Effect::ClearState);
                    effects.push(Effect::UpdateIcon { active: false });
                    let n = if had_saved {
                        Notice::OffRestored
                    } else {
                        Notice::OffDefaults
                    };
                    effects.push(Effect::Notify(n));
                },
                Err(c) => {
                    effects.push(Effect::Notify(Notice::RestoreFailed(c)));
                },
            },
            Purpose::Reset => match r {
                Ok(()) => {
                    self.active = false;
                    effects.push(Effect::ClearState);
                    effects.push(Effect::UpdateIcon { active: false });
                    effects.push(Effect::Notify(Notice::ResetDone));
                },
                Err(c) => {
                    effects.push(Effect::Notify(Notice::ResetFailed(c)));
                },
            },
            Purpose::Quit => {
                effects.push(Effect::ClearState);
                effects.push(Effect::RemoveIcon);
                effects.push(Effect::PostQuit);
            },
            Purpose::Recover => {
                self.active = false;
                effects.push(Effect::ClearState);
                effects.push(Effect::AddIcon { active: false });
            },
        }
        proof {
            assert(effects@ =~= finish_write(old(self).active, purpose, r).1);
        }
        effects
    }

    /// Takes the host's answer to the pending query.
    pub fn answer(&mut self, a: Answer) -> (step: Step)
        ensures
            (*final(self), step.effects@) == on_answer(*old(self), a),
            step.query == pending(*final(self)),
    {
        let ghost a_copy = a;
        let mut effects: Vec<Effect> = Vec::new();
        match (self.wait, a) {
            (Wait::StateFile, Answer::Exists(true)) => {
                self.wait = Wait::Load(LoadFor::Recover);
            },
            (Wait::StateFile, Answer::Exists(false)) => {
                self.wait = Wait::Idle;
                effects.push(Effect::AddIcon { active: self.active });
            },
            (Wait::Capture(j), Answer::Power(r)) => {
                let mut j2 = j;
                match j2.feed(r) {
                    Progress::Pending => {
                        self.wait = Wait::Capture(j2);
                    },
                    Progress::Done(Ok(s)) => {
                        self.wait = Wait::Save(s);
                    },
                    Progress::Done(Err(c)) => {
                        self.wait = Wait::Idle;
                        effects.push(Effect::Notify(Notice::ReadFailed(c)));
                    },
                }
            },
            (Wait::Save(_), Answer::Saved(Ok(()))) => {
                self.wait = Wait::Write(write_stay_awake(), Purpose::StayAwake);
            },
            (Wait::Save(_), Answer::Saved(Err(e))) => {
                self.wait = Wait::Idle;
                effects.push(Effect::Notify(Notice::SaveFailed(e)));
            },
            (Wait::Write(j, purpose), Answer::Power(r)) => {
                let mut j2 = j;
                match j2.feed(r) {
                    Progress::Pending => {
                        self.wait = Wait::Write(j2, purpose);
                    },
                    Progress::Done(res) => {
                        effects = self.finish(purpose, res);
                    },
                }
            },
            (Wait::Load(purpose), Answer::Loaded(saved)) => {
                let job = match saved {
                    Some(s) => write_settings(&s),
                    None => write_defaults(),
                };
                let p = match purpose {
                    LoadFor::Disable => Purpose::Restore { had_saved: saved.is_some() },
                    LoadFor::Quit => Purpose::Quit,
                    LoadFor::Recover => Purpose::Recover,
                };
                self.wait = Wait::Write(job, p);
            },
            (Wait::AutostartForMenu, Answer::Autostart(on)) => {
                self.wait = Wait::Idle;
                effects.push(Effect::ShowMenu { active: self.active, autostart: on });
            },
            (Wait::AutostartForToggle, Answer::Autostart(on)) => {
                self.wait = Wait::Idle;
                effects.push(Effect::SetAutostart(!on));
            },
            _ => {},
        }
        proof {
            assert(effects@ =~= on_answer(*old(self), a_copy).1);
        }
        let q = self.query();
        Step { effects, query: q }
    }
}


// ---------------------------------------------------------------------------
// Runs of the machine, and what holds of them
// ---------------------------------------------------------------------------

/// An event or an answer, as the machine takes them one after the other.
pub enum Input {
    Event(Event),
    Answer(Answer),
}

pub open spec fn on_input(m: Clam, i: Input) -> (Clam, Seq<Effect>) {
    match i {
        Input::Event(e) => on_event(m, e),
        Input::Answer(a) => on_answer(m, a),
    }
}

/// The machine after `inputs`, and all the effects it asked for on the way.
pub open spec fn run(m: Clam, inputs: Seq<Input>) -> (Clam, Seq<Effect>)
    decreases inputs.len(),
{
    if inputs.len() == 0 {
        (m, seq![])
    } else {
        let first = on_input(m, inputs[0]);
        let rest = run(first.0, inputs.drop_first());
        (rest.0, first.1 + rest.1)
    }
}

pub open spec fn power(r: PowerReply) -> Input {
    Input::Answer(Answer::Power(r))
}

/// Whether `a` is of the kind that answers `q`.
pub open spec fn answers(q: Query, a: Answer) -> bool {
    match (q, a) {
        (Query::Power(pq), Answer::Power(r)) => crate::power::answers(pq, r),
        (Query::SaveState(_), Answer::Saved(_)) => true,
        (Query::LoadState, Answer::Loaded(_)) => true,
        (Query::StateFileExists, Answer::Exists(_)) => true,
        (Query::AutostartEnabled, Answer::Autostart(_)) => true,
        _ => false,
    }
}

proof fn lemma_run_two(m: Clam, a: Input, b: Input)
    ensures
        run(m, seq![a, b]) == ({
            let x = on_input(m, a);
            let y = on_input(x.0, b);
            (y.0, x.1 + y.1)
        }),
{
    let s = seq![a, b];
    assert(s.drop_first() =~= seq![b]);
    assert(seq![b].drop_first() =~= Seq::<Input>::empty());
    let x = on_input(m, a);
    let y = on_input(x.0, b);
    assert(seq![b][0] == b);
    assert(run(y.0, Seq::<Input>::empty()) == (y.0, Seq::<Effect>::empty()));
    assert(run(x.0, seq![b]) == (y.0, y.1 + Seq::<Effect>::empty()));
    assert(y.1 + Seq::<Effect>::empty() =~= y.1);
}

/// Running `a` then `b` is running `a + b`.
pub proof fn lemma_run_append(m: Clam, a: Seq<Input>, b: Seq<Input>)
    ensures
        run(m, a + b) == ({
            let x = run(m, a);
            let y = run(x.0, b);
            (y.0, x.1 + y.1)
        }),
    decreases a.len(),
{
    if a.len() == 0 {
        assert(a + b =~= b);
        assert(Seq::<Effect>::empty() + run(m, b).1 =~= run(m, b).1);
    } else {
        assert((a + b).drop_first() =~= a.drop_first() + b);
        assert((a + b)[0] == a[0]);
        let first = on_input(m, a[0]);
        lemma_run_append(first.0, a.drop_first(), b);
        let x = run(m, a);
        let y = run(x.0, b);
        let inner = run(first.0, a.drop_first());
        assert(first.1 + (inner.1 + y.1) =~= (first.1 + inner.1) + y.1);
    }
}

proof fn lemma_run_one(m: Clam, a: Input)
    ensures
        run(m, seq![a]) == on_input(m, a),
{
    assert(seq![a].drop_first() =~= Seq::<Input>::empty());
    assert(seq![a][0] == a);
    assert(run(on_input(m, a).0, Seq::<Input>::empty()) == (on_input(m, a).0, Seq::<Effect>::empty()));
    assert(on_input(m, a).1 + Seq::<Effect>::empty() =~= on_input(m, a).1);
}

/// The inputs that switch stay-awake on when every call goes through: the
/// click, the answers of the read, the save, and the answers of the write.
pub open spec fn capture_inputs(g: u128, v0: u32, v1: u32, v2: u32, v3: u32) -> Seq<Input> {
    seq![
        Input::Event(Event::LeftClick),
        power(PowerReply::Scheme(Ok(g))),
        power(PowerReply::Value(Ok(v0))),
        power(PowerReply::Value(Ok(v1))),
        power(PowerReply::Value(Ok(v2))),
        power(PowerReply::Value(Ok(v3))),
    ]
}

pub open spec fn write_ok_inputs(g: u128) -> Seq<Input> {
    seq![
        power(PowerReply::Scheme(Ok(g))),
        power(PowerReply::Status(Ok(()))),
        power(PowerReply::Status(Ok(()))),
        power(PowerReply::Status(Ok(()))),
        power(PowerReply::Status(Ok(()))),
        power(PowerReply::Status(Ok(()))),
    ]
}

/// A write job that is answered with success all the way ends in `Done(Ok)`,
/// while the machine forwards each answer to it.
proof fn lemma_write_job_ok(active: bool, plan: crate::power::WritePlan, purpose: Purpose, g: u128)
    ensures
        run(waiting(active, Wait::Write(fresh_write_job(plan), purpose)), write_ok_inputs(g))
            == finish_write(active, purpose, Ok(())),
{
    let i = write_ok_inputs(g);
    let j0 = fresh_write_job(plan);
    let j1 = j0.next(PowerReply::Scheme(Ok(g))).0;
    let j2 = j1.next(PowerReply::Status(Ok(()))).0;
    let j3 = j2.next(PowerReply::Status(Ok(()))).0;
    let j4 = j3.next(PowerReply::Status(Ok(()))).0;
    let j5 = j4.next(PowerReply::Status(Ok(()))).0;
    let m0 = waiting(active, Wait::Write(j0, purpose));
    let m1 = waiting(active, Wait::Write(j1, purpose));
    let m2 = waiting(active, Wait::Write(j2, purpose));
    let m3 = waiting(active, Wait::Write(j3, purpose));
    let m4 = waiting(active, Wait::Write(j4, purpose));
    let m5 = waiting(active, Wait::Write(j5, purpose));
    assert(i =~= seq![i[0]] + seq![i[1]] + seq![i[2]] + seq![i[3]] + seq![i[4]] + seq![i[5]]);
    lemma_run_one(m0, i[0]);
    lemma_run_one(m1, i[1]);
    lemma_run_one(m2, i[2]);
    lemma_run_one(m3, i[3]);
    lemma_run_one(m4, i[4]);
    lemma_run_one(m5, i[5]);
    lemma_run_append(m0, seq![i[0]], seq![i[1]]);
    lemma_run_append(m0, seq![i[0]] + seq![i[1]], seq![i[2]]);
    lemma_run_append(m0, seq![i[0]] + seq![i[1]] + seq![i[2]], seq![i[3]]);
    lemma_run_append(m0, seq![i[0]] + seq![i[1]] + seq![i[2]] + seq![i[3]], seq![i[4]]);
    lemma_run_append(m0, seq![i[0]] + seq![i[1]] + seq![i[2]] + seq![i[3]] + seq![i[4]], seq![i[5]]);
    let e: Seq<Effect> = seq![];
    assert(e + e + e + e + e + finish_write(active, purpose, Ok(())).1 =~= finish_write(active, purpose, Ok(())).1);
}

/// Switching stay-awake on first saves exactly the settings that it read
/// (lid AC, lid DC, idle AC, idle DC), and writes the stay-awake values only
/// once they are saved. When everything goes through, stay-awake is on, the
/// icon shows it and a notification says so.
pub proof fn law_toggle_on_saves_what_it_read(g_read: u128, g_write: u128, v0: u32, v1: u32, v2: u32, v3: u32)
    ensures
        ({
            let captured = SavedState { lid_close_ac: v0, lid_close_dc: v1, sleep_idle_ac: v2, sleep_idle_dc: v3 };
            let read = run(idle(false), capture_inputs(g_read, v0, v1, v2, v3));
            let saved = on_answer(read.0, Answer::Saved(Ok(())));
            let written = run(saved.0, write_ok_inputs(g_write));
            &&& read == (waiting(false, Wait::Save(captured)), Seq::<Effect>::empty())
            &&& pending(read.0) == Some(Query::SaveState(captured))
            &&& saved == (waiting(false, Wait::Write(fresh_write_job(stay_awake_plan()), Purpose::StayAwake)), Seq::<Effect>::empty())
            &&& written == (idle(true), seq![Effect::UpdateIcon { active: true }, Effect::Notify(Notice::StayAwakeOn)])
        }),
{
    let i = capture_inputs(g_read, v0, v1, v2, v3);
    let j0 = fresh_read_job();
    let j1 = j0.next(PowerReply::Scheme(Ok(g_read))).0;
    let j2 = j1.next(PowerReply::Value(Ok(v0))).0;
    let j3 = j2.next(PowerReply::Value(Ok(v1))).0;
    let j4 = j3.next(PowerReply::Value(Ok(v2))).0;
    let m0 = idle(false);
    let m1 = waiting(false, Wait::Capture(j0));
    let m2 = waiting(false, Wait::Capture(j1));
    let m3 = waiting(false, Wait::Capture(j2));
    let m4 = waiting(false, Wait::Capture(j3));
    let m5 = waiting(false, Wait::Capture(j4));
    assert(i =~= seq![i[0]] + seq![i[1]] + seq![i[2]] + seq![i[3]] + seq![i[4]] + seq![i[5]]);
    lemma_run_one(m0, i[0]);
    lemma_run_one(m1, i[1]);
    lemma_run_one(m2, i[2]);
    lemma_run_one(m3, i[3]);
    lemma_run_one(m4, i[4]);
    lemma_run_one(m5, i[5]);
    lemma_run_append(m0, seq![i[0]], seq![i[1]]);
    lemma_run_append(m0, seq![i[0]] + seq![i[1]], seq![i[2]]);
    lemma_run_append(m0, seq![i[0]] + seq![i[1]] + seq![i[2]], seq![i[3]]);
    lemma_run_append(m0, seq![i[0]] + seq![i[1]] + seq![i[2]] + seq![i[3]], seq![i[4]]);
    lemma_run_append(m0, seq![i[0]] + seq![i[1]] + seq![i[2]] + seq![i[3]] + seq![i[4]], seq![i[5]]);
    let e: Seq<Effect> = seq![];
    assert(e + e + e + e + e + e =~= e);
    lemma_write_job_ok(false, stay_awake_plan(), Purpose::StayAwake, g_write);
}

/// Switching stay-awake off writes back the saved settings, in order lid AC,
/// lid DC, idle AC, idle DC, or the defaults when nothing was saved. When
/// that goes through, the saved state is deleted, stay-awake is off, the
/// icon shows it and a notification tells which settings came back.
pub proof fn law_toggle_off_restores_saved(saved: Option<SavedState>, g: u128)
    ensures
        ({
            let loading = on_event(idle(true), Event::LeftClick);
            let loaded = on_answer(loading.0, Answer::Loaded(saved));
            let written = run(loaded.0, write_ok_inputs(g));
            &&& loading == (waiting(true, Wait::Load(LoadFor::Disable)), Seq::<Effect>::empty())
            &&& pending(loading.0) == Some(Query::LoadState)
            &&& loaded == (waiting(true, Wait::Write(restore_job(saved), Purpose::Restore { had_saved: saved is Some })), Seq::<Effect>::empty())
            &&& restore_job(saved) == fresh_write_job(settings_plan(match saved { Some(s) => s, None => default_settings() }))
            &&& written == (idle(false), seq![
                Effect::ClearState,
                Effect::UpdateIcon { active: false },
                Effect::Notify(if saved is Some { Notice::OffRestored } else { Notice::OffDefaults }),
            ])
        }),
{
    let loading = on_event(idle(true), Event::LeftClick);
    let loaded = on_answer(loading.0, Answer::Loaded(saved));
    lemma_write_job_ok(true, restore_job(saved).plan, Purpose::Restore { had_saved: saved is Some }, g);
}

/// Toggling on and then off puts back, to each setting that was read, the
/// value that was read from it, given that the saved-state file gives back
/// what was saved.
pub proof fn law_toggle_round_trip(g_read: u128, g_on: u128, g_off: u128, v0: u32, v1: u32, v2: u32, v3: u32)
    ensures
        ({
            let values = seq![v0, v1, v2, v3];
            let on = run(idle(false), capture_inputs(g_read, v0, v1, v2, v3) + seq![Input::Answer(Answer::Saved(Ok(())))] + write_ok_inputs(g_on));
            let saved = SavedState { lid_close_ac: v0, lid_close_dc: v1, sleep_idle_ac: v2, sleep_idle_dc: v3 };
            let off = run(on.0, seq![Input::Event(Event::LeftClick), Input::Answer(Answer::Loaded(Some(saved)))]);
            let reads = read_run(fresh_read_job(), read_ok_replies(g_read, v0, v1, v2, v3)).0;
            let writes = write_run(restore_job(Some(saved)), write_ok_replies(g_off)).0;
            &&& on.0 == idle(true)
            &&& off.0 == waiting(true, Wait::Write(restore_job(Some(saved)), Purpose::Restore { had_saved: true }))
            &&& run(off.0, write_ok_inputs(g_off)).0 == idle(false)
            &&& forall|i: int| 0 <= i < 4 ==> {
                &&& (#[trigger] reads[i + 1]) == (PowerQuery::Read { scheme: g_read, key: state_key(i) })
                &&& writes[i + 1] == (PowerQuery::Write { scheme: g_off, write: PowerWrite { key: state_key(i), value: values[i] } })
            }
        }),
{
    let saved = SavedState { lid_close_ac: v0, lid_close_dc: v1, sleep_idle_ac: v2, sleep_idle_dc: v3 };
    law_toggle_on_saves_what_it_read(g_read, g_on, v0, v1, v2, v3);
    let c = capture_inputs(g_read, v0, v1, v2, v3);
    let sv = seq![Input::Answer(Answer::Saved(Ok(())))];
    let w = write_ok_inputs(g_on);
    lemma_run_append(idle(false), c, sv);
    lemma_run_one(run(idle(false), c).0, sv[0]);
    lemma_run_append(idle(false), c + sv, w);
    lemma_run_two(idle(true), Input::Event(Event::LeftClick), Input::Answer(Answer::Loaded(Some(saved))));
    law_toggle_off_restores_saved(Some(saved), g_off);
    law_read_captures_values(g_read, v0, v1, v2, v3);
    crate::power::law_write_makes_plan(settings_plan(saved), g_off);
    law_restore_writes_back_captured(g_read, g_off, v0, v1, v2, v3);
}

/// A failed stay-awake write leaves stay-awake off, deletes the state that
/// was saved for it, and says why: "Access denied" for error 5, else the
/// error number.
pub proof fn law_failed_enable_clears_state(m: Clam, r: PowerReply)
    requires
        m.wait matches Wait::Write(j, Purpose::StayAwake) && j.next(r).1 matches Progress::Done(Err(c)),
    ensures
        ({
            let c = match m.wait { Wait::Write(j, _) => match j.next(r).1 { Progress::Done(Err(c)) => c, _ => 0 }, _ => 0 };
            &&& on_answer(m, Answer::Power(r)) == (idle(m.active), seq![Effect::ClearState, Effect::Notify(enable_failure(c))])
            &&& (c == 5 ==> enable_failure(c) == Notice::AccessDenied)
            &&& (c != 5 ==> enable_failure(c) == Notice::WriteFailed(c))
        }),
{
}

pub open spec fn is_notify(e: Effect) -> bool {
    e is Notify
}

/// A toggle that ends, whether it went through or failed at reading,
/// saving or writing, ends with one notification, as its last effect.
pub proof fn law_every_toggle_ends_with_a_notice(m: Clam, a: Answer)
    requires
        m.wait is Capture || m.wait is Save || m.wait matches Wait::Write(_, Purpose::StayAwake)
            || m.wait matches Wait::Write(_, Purpose::Restore { .. }),
        on_answer(m, a).0.wait == Wait::Idle,
    ensures
        ({
            let e = on_answer(m, a).1;
            &&& e.len() >= 1
            &&& is_notify(e.last())
            &&& forall|i: int| 0 <= i < e.len() - 1 ==> !is_notify(#[trigger] e[i])
        }),
{
}

pub open spec fn all_answers(inputs: Seq<Input>) -> bool {
    forall|k: int| 0 <= k < inputs.len() ==> #[trigger] inputs[k] is Answer
}

/// Exactly one notification, and it comes last.
pub open spec fn one_notice_at_end(e: Seq<Effect>) -> bool {
    &&& e.len() >= 1
    &&& is_notify(e.last())
    &&& forall|k: int| 0 <= k < e.len() - 1 ==> !is_notify(#[trigger] e[k])
}

pub open spec fn is_icon_update(e: Effect) -> bool {
    e is UpdateIcon
}

/// The icon is changed at most once, exactly when stay-awake went from
/// `before` to another state, and then to the icon of `after`.
pub open spec fn icon_follows(e: Seq<Effect>, before: bool, after: bool) -> bool {
    &&& forall|k: int| 0 <= k < e.len() && is_icon_update(#[trigger] e[k]) ==> e[k] == Effect::UpdateIcon { active: after }
    &&& (before != after) <==> (exists|k: int| 0 <= k < e.len() && is_icon_update(#[trigger] e[k]))
    &&& forall|k: int, l: int| 0 <= k < l < e.len() && is_icon_update(#[trigger] e[k]) ==> !is_icon_update(#[trigger] e[l])
}

/// What the host's saved-state file and tray icon look like after some
/// effects: deleting the file removes it, and the icon shows the state last
/// given to it.
pub open spec fn apply_effects(file: bool, icon: bool, e: Seq<Effect>) -> (bool, bool)
    decreases e.len(),
{
    if e.len() == 0 {
        (file, icon)
    } else {
        let before = apply_effects(file, icon, e.drop_last());
        match e.last() {
            Effect::ClearState => (false, before.1),
            Effect::UpdateIcon { active } => (before.0, active),
            Effect::AddIcon { active } => (before.0, active),
            _ => before,
        }
    }
}

/// Whether the saved-state file is there once the host has answered: a
/// successful save writes it, a failed one leaves none.
pub open spec fn file_after_answer(m: Clam, i: Input, file: bool) -> bool {
    match (m.wait, i) {
        (Wait::Save(_), Input::Answer(Answer::Saved(r))) => r is Ok,
        _ => file,
    }
}

/// The host's file and icon as the machine takes `inputs`: each answer given
/// and then the effects of the step carried out.
pub open spec fn host_run(m: Clam, inputs: Seq<Input>, file: bool, icon: bool) -> (bool, bool)
    decreases inputs.len(),
{
    if inputs.len() == 0 {
        (file, icon)
    } else {
        let f = file_after_answer(m, inputs[0], file);
        let step = on_input(m, inputs[0]);
        let after = apply_effects(f, icon, step.1);
        host_run(step.0, inputs.drop_first(), after.0, after.1)
    }
}

/// The machine is in the middle of a toggle that started with stay-awake at
/// `a`.
pub open spec fn in_toggle(m: Clam, a: bool) -> bool {
    &&& m.active == a
    &&& if a {
        m.wait == Wait::Load(LoadFor::Disable) || m.wait matches Wait::Write(_, Purpose::Restore { had_saved: _ })
    } else {
        m.wait is Capture || m.wait is Save || m.wait matches Wait::Write(_, Purpose::StayAwake)
    }
}

/// The host during a toggle: the icon still shows `a`, and the file is there
/// as before, except that it is there while stay-awake values are written.
pub open spec fn host_in_toggle(m: Clam, a: bool, file: bool, icon: bool) -> bool {
    &&& icon == a
    &&& if m.wait matches Wait::Write(_, Purpose::StayAwake) { file } else { file == a }
}

proof fn lemma_idle_ignores_answers(m: Clam, inputs: Seq<Input>, file: bool, icon: bool)
    requires
        m.wait == Wait::Idle,
        all_answers(inputs),
    ensures
        run(m, inputs) == (m, Seq::<Effect>::empty()),
        host_run(m, inputs, file, icon) == (file, icon),
    decreases inputs.len(),
{
    if inputs.len() > 0 {
        assert(inputs[0] is Answer);
        let rest = inputs.drop_first();
        assert forall|k: int| 0 <= k < rest.len() implies #[trigger] rest[k] is Answer by {
            assert(rest[k] == inputs[k + 1]);
        }
        lemma_idle_ignores_answers(m, rest, file, icon);
        assert(apply_effects(file, icon, Seq::<Effect>::empty()) == (file, icon));
        assert(Seq::<Effect>::empty() + Seq::<Effect>::empty() =~= Seq::<Effect>::empty());
    }
}

proof fn lemma_toggle_step(m: Clam, a: bool, i: Input, file: bool, icon: bool)
    requires
        in_toggle(m, a),
        host_in_toggle(m, a, file, icon),
        i is Answer,
    ensures
        ({
            let step = on_input(m, i);
            let h = apply_effects(file_after_answer(m, i, file), icon, step.1);
            &&& step.0.wait == Wait::Idle ==> {
                &&& one_notice_at_end(step.1)
                &&& icon_follows(step.1, a, step.0.active)
                &&& h.0 == step.0.active
                &&& h.1 == step.0.active
            }
            &&& step.0.wait != Wait::Idle ==> {
                &&& step.1.len() == 0
                &&& in_toggle(step.0, a)
                &&& host_in_toggle(step.0, a, h.0, h.1)
            }
        }),
{
    let step = on_input(m, i);
    let f = file_after_answer(m, i, file);
    let e = step.1;
    reveal_with_fuel(apply_effects, 4);
    if step.0.wait == Wait::Idle {
        if e.len() == 1 {
            assert(e.drop_last() =~= Seq::<Effect>::empty());
        } else if e.len() == 2 {
            assert(e.drop_last() =~= seq![e[0]]);
            assert(seq![e[0]].drop_last() =~= Seq::<Effect>::empty());
        } else if e.len() == 3 {
            assert(e.drop_last() =~= seq![e[0], e[1]]);
            assert(seq![e[0], e[1]].drop_last() =~= seq![e[0]]);
            assert(seq![e[0]].drop_last() =~= Seq::<Effect>::empty());
        }
        if step.0.active != a {
            assert(is_icon_update(e[e.len() - 2]));
        }
    }
}

proof fn lemma_toggle_from(m: Clam, a: bool, inputs: Seq<Input>, file: bool, icon: bool)
    requires
        in_toggle(m, a),
        host_in_toggle(m, a, file, icon),
        all_answers(inputs),
    ensures
        ({
            let r = run(m, inputs);
            let h = host_run(m, inputs, file, icon);
            &&& r.0.wait == Wait::Idle ==> {
                &&& one_notice_at_end(r.1)
                &&& icon_follows(r.1, a, r.0.active)
                &&& h.0 == r.0.active
                &&& h.1 == r.0.active
            }
            &&& r.0.wait != Wait::Idle ==> r.1.len() == 0 && in_toggle(r.0, a)
        }),
    decreases inputs.len(),
{
    if inputs.len() > 0 {
        let i = inputs[0];
        assert(i is Answer);
        let rest = inputs.drop_first();
        assert forall|k: int| 0 <= k < rest.len() implies #[trigger] rest[k] is Answer by {
            assert(rest[k] == inputs[k + 1]);
        }
        lemma_toggle_step(m, a, i, file, icon);
        let step = on_input(m, i);
        let h = apply_effects(file_after_answer(m, i, file), icon, step.1);
        if step.0.wait == Wait::Idle {
            lemma_idle_ignores_answers(step.0, rest, h.0, h.1);
            assert(step.1 + Seq::<Effect>::empty() =~= step.1);
        } else {
            lemma_toggle_from(step.0, a, rest, h.0, h.1);
            assert(Seq::<Effect>::empty() + run(step.0, rest).1 =~= run(step.0, rest).1);
        }
    }
}

/// A whole toggle, whatever the power, file and registry calls answer, once
/// it is over: it has shown exactly one notification, as its last effect;
/// and it has changed the tray icon once, to the new state, when stay-awake
/// changed, and not at all when it did not.
pub proof fn law_toggle_notifies_once_and_icon_follows(a: bool, answers: Seq<Input>)
    requires
        all_answers(answers),
    ensures
        ({
            let r = run(idle(a), seq![Input::Event(Event::LeftClick)] + answers);
            r.0.wait == Wait::Idle ==> one_notice_at_end(r.1) && icon_follows(r.1, a, r.0.active)
        }),
{
    let click = seq![Input::Event(Event::LeftClick)];
    lemma_run_append(idle(a), click, answers);
    lemma_run_one(idle(a), click[0]);
    let m1 = on_event(idle(a), Event::LeftClick).0;
    lemma_toggle_from(m1, a, answers, a, a);
    assert(Seq::<Effect>::empty() + run(m1, answers).1 =~= run(m1, answers).1);
}

/// After a whole toggle, whatever the calls answer, the saved-state file is
/// there exactly when stay-awake is on, and the icon shows the state, given
/// that this held before it, that a successful save writes the file, that a
/// failed save leaves none, and that deleting the file removes it.
pub proof fn law_toggle_keeps_file_and_icon_in_step(a: bool, answers: Seq<Input>)
    requires
        all_answers(answers),
    ensures
        ({
            let inputs = seq![Input::Event(Event::LeftClick)] + answers;
            let r = run(idle(a), inputs);
            let h = host_run(idle(a), inputs, a, a);
            r.0.wait == Wait::Idle ==> h.0 == r.0.active && h.1 == r.0.active
        }),
{
    let click = seq![Input::Event(Event::LeftClick)];
    let inputs = click + answers;
    lemma_run_append(idle(a), click, answers);
    lemma_run_one(idle(a), click[0]);
    assert(inputs[0] == click[0]);
    assert(inputs.drop_first() =~= answers);
    let m1 = on_event(idle(a), Event::LeftClick).0;
    assert(apply_effects(a, a, Seq::<Effect>::empty()) == (a, a));
    assert(host_run(idle(a), inputs, a, a) == host_run(m1, answers, a, a));
    lemma_toggle_from(m1, a, answers, a, a);
    assert(Seq::<Effect>::empty() + run(m1, answers).1 =~= run(m1, answers).1);
}

/// Right click: the menu is shown for the state stay-awake is in, with
/// "Start with Windows" checked exactly when autostart is on, and nothing
/// else changes.
pub proof fn law_menu_shows_current_state(m: Clam, on: bool)
    requires
        m.wait == Wait::Idle,
    ensures
        run(m, seq![Input::Event(Event::RightClick), Input::Answer(Answer::Autostart(on))])
            == (idle(m.active), seq![Effect::ShowMenu { active: m.active, autostart: on }]),
        pending(on_event(m, Event::RightClick).0) == Some(Query::AutostartEnabled),
{
    lemma_run_two(m, Input::Event(Event::RightClick), Input::Answer(Answer::Autostart(on)));
    assert(Seq::<Effect>::empty() + seq![Effect::ShowMenu { active: m.active, autostart: on }]
        =~= seq![Effect::ShowMenu { active: m.active, autostart: on }]);
}

/// "Start with Windows" switches autostart to the opposite of what it is,
/// whatever the state of stay-awake, and changes nothing else.
pub proof fn law_autostart_item_flips(m: Clam, on: bool)
    requires
        m.wait == Wait::Idle,
    ensures
        run(m, seq![Input::Event(Event::MenuAutostart), Input::Answer(Answer::Autostart(on))])
            == (idle(m.active), seq![Effect::SetAutostart(!on)]),
        pending(on_event(m, Event::MenuAutostart).0) == Some(Query::AutostartEnabled),
{
    lemma_run_two(m, Input::Event(Event::MenuAutostart), Input::Answer(Answer::Autostart(on)));
    assert(Seq::<Effect>::empty() + seq![Effect::SetAutostart(!on)] =~= seq![Effect::SetAutostart(!on)]);
}

/// When the taskbar is recreated the icon of the current state is added back,
/// and on destruction the loop ends; neither changes the state.
pub proof fn law_taskbar_and_destroy(m: Clam)
    requires
        m.wait == Wait::Idle,
    ensures
        on_event(m, Event::TaskbarCreated) == (idle(m.active), seq![Effect::AddIcon { active: m.active }]),
        on_event(m, Event::Destroy) == (idle(m.active), seq![Effect::PostQuit]),
{
}

pub open spec fn icon_effect_shows(e: Effect, active: bool) -> bool {
    match e {
        Effect::AddIcon { active: a } => a == active,
        Effect::UpdateIcon { active: a } => a == active,
        _ => true,
    }
}

/// Every icon that the machine adds or changes shows the state that
/// stay-awake is in after the step, whatever the event or answer.
pub proof fn law_icon_shows_state_after_step(m: Clam, i: Input)
    ensures
        ({
            let step = on_input(m, i);
            forall|k: int| 0 <= k < step.1.len() ==> icon_effect_shows(#[trigger] step.1[k], step.0.active)
        }),
{
}

/// Each failure is reported with its own notice, carrying the Win32 error
/// code (or the save's reason), and ends the operation with stay-awake as it
/// was: a failed read or save does nothing else, a failed restore or reset
/// keeps the saved state.
pub proof fn law_failures_report_their_cause(active: bool, j: ReadJob, w: WriteJob, s: SavedState, r: PowerReply, e: String, had_saved: bool)
    ensures
        j.next(r).1 matches Progress::Done(Err(c)) ==> on_answer(waiting(active, Wait::Capture(j)), Answer::Power(r))
            == (idle(active), seq![Effect::Notify(Notice::ReadFailed(c))]),
        on_answer(waiting(active, Wait::Save(s)), Answer::Saved(Err(e)))
            == (idle(active), seq![Effect::Notify(Notice::SaveFailed(e))]),
        w.next(r).1 matches Progress::Done(Err(c)) ==> on_answer(waiting(active, Wait::Write(w, Purpose::Restore { had_saved })), Answer::Power(r))
            == (idle(active), seq![Effect::Notify(Notice::RestoreFailed(c))]),
        w.next(r).1 matches Progress::Done(Err(c)) ==> on_answer(waiting(active, Wait::Write(w, Purpose::Reset)), Answer::Power(r))
            == (idle(active), seq![Effect::Notify(Notice::ResetFailed(c))]),
        w.next(r).1 matches Progress::Done(Err(c)) ==> on_answer(waiting(active, Wait::Write(w, Purpose::StayAwake)), Answer::Power(r))
            == (idle(active), seq![Effect::ClearState, Effect::Notify(
                if c == 5 { Notice::AccessDenied } else { Notice::WriteFailed(c) })]),
{
}

/// Stay-awake values are written only after the captured settings were
/// saved: the machine starts such a write only on a successful save.
pub proof fn law_stay_awake_only_after_save(m: Clam, i: Input)
    ensures
        ({
            let m1 = on_input(m, i).0;
            (m1.wait matches Wait::Write(_, Purpose::StayAwake)) ==> {
                ||| m.wait matches Wait::Write(_, Purpose::StayAwake)
                ||| (m.wait is Save && i matches Input::Answer(Answer::Saved(Ok(_))))
            }
        }),
{
}

/// Stay-awake turns on only when its write went through, and off only when
/// the restore or reset write went through, or at launch recovery.
pub proof fn law_active_changes_only_on_completed_writes(m: Clam, i: Input)
    ensures
        ({
            let m1 = on_input(m, i).0;
            &&& (!m.active && m1.active) ==> (m.wait matches Wait::Write(j, Purpose::StayAwake)
                && i matches Input::Answer(Answer::Power(r)) && j.next(r).1 == Progress::<()>::Done(Ok(())))
            &&& (m.active && !m1.active) ==> (m.wait matches Wait::Write(j, p)
                && i matches Input::Answer(Answer::Power(r)) && j.next(r).1 is Done
                && (p is Restore || p is Reset || p is Recover)
                && (!(p is Recover) ==> j.next(r).1 == Progress::<()>::Done(Ok(()))))
        }),
{
}

/// While the machine waits for an answer it ignores events, and it ignores
/// an answer of the wrong kind: nothing changes and nothing is done.
pub proof fn law_ignores_what_it_does_not_wait_for(m: Clam, e: Event, a: Answer)
    ensures
        m.wait != Wait::Idle ==> on_event(m, e) == (m, Seq::<Effect>::empty()),
        (pending(m) is None || !answers(pending(m)->0, a)) ==> on_answer(m, a) == (m, Seq::<Effect>::empty()),
{
    match (m.wait, a) {
        (Wait::Capture(j), Answer::Power(r)) => {
            crate::power::law_unanswered_reply_ignored(j, fresh_write_job(stay_awake_plan()), r);
        },
        (Wait::Write(j, _), Answer::Power(r)) => {
            crate::power::law_unanswered_reply_ignored(fresh_read_job(), j, r);
        },
        _ => {},
    }
}

/// Quitting while stay-awake is on writes back the saved settings (or the
/// defaults), then, whether that went through or not, deletes the saved
/// state, removes the icon and ends. Quitting while it is off only removes
/// the icon and ends.
pub proof fn law_quit_restores_when_active(saved: Option<SavedState>, r: PowerReply, j: WriteJob)
    ensures
        on_event(idle(false), Event::MenuQuit) == (idle(false), seq![Effect::RemoveIcon, Effect::PostQuit]),
        run(idle(true), seq![Input::Event(Event::MenuQuit), Input::Answer(Answer::Loaded(saved))])
            == (waiting(true, Wait::Write(restore_job(saved), Purpose::Quit)), Seq::<Effect>::empty()),
        j.next(r).1 is Done ==> on_answer(waiting(true, Wait::Write(j, Purpose::Quit)), Answer::Power(r))
            == (idle(true), seq![Effect::ClearState, Effect::RemoveIcon, Effect::PostQuit]),
{
    lemma_run_two(idle(true), Input::Event(Event::MenuQuit), Input::Answer(Answer::Loaded(saved)));
    assert(Seq::<Effect>::empty() + Seq::<Effect>::empty() =~= Seq::<Effect>::empty());
}

/// At launch, when the saved-state file is there, the saved settings (or
/// the defaults when it cannot be read) are written back; whether that went
/// through or not, the file is deleted, stay-awake is off and the icon is
/// shown. Without the file only the icon is shown.
pub proof fn law_launch_recovers(saved: Option<SavedState>, r: PowerReply, j: WriteJob, active: bool)
    ensures
        run(idle(false), seq![Input::Event(Event::Launch), Input::Answer(Answer::Exists(false))])
            == (idle(false), seq![Effect::AddIcon { active: false }]),
        run(idle(false), seq![Input::Event(Event::Launch), Input::Answer(Answer::Exists(true))])
            == (waiting(false, Wait::Load(LoadFor::Recover)), Seq::<Effect>::empty()),
        on_answer(waiting(false, Wait::Load(LoadFor::Recover)), Answer::Loaded(saved))
            == (waiting(false, Wait::Write(restore_job(saved), Purpose::Recover)), Seq::<Effect>::empty()),
        j.next(r).1 is Done ==> on_answer(waiting(active, Wait::Write(j, Purpose::Recover)), Answer::Power(r))
            == (idle(false), seq![Effect::ClearState, Effect::AddIcon { active: false }]),
{
    lemma_run_two(idle(false), Input::Event(Event::Launch), Input::Answer(Answer::Exists(false)));
    lemma_run_two(idle(false), Input::Event(Event::Launch), Input::Answer(Answer::Exists(true)));
    assert(Seq::<Effect>::empty() + seq![Effect::AddIcon { active: false }] =~= seq![Effect::AddIcon { active: false }]);
    assert(Seq::<Effect>::empty() + Seq::<Effect>::empty() =~= Seq::<Effect>::empty());
}

/// "Reset to normal defaults" writes lid-close Sleep and idle timeouts of
/// 30 min (AC) and 15 min (DC); when that goes through, the saved state is
/// deleted and stay-awake is off.
pub proof fn law_reset_writes_defaults(active: bool, g: u128)
    ensures
        on_event(idle(active), Event::MenuReset) == (
            waiting(active, Wait::Write(fresh_write_job(settings_plan(default_settings())), Purpose::Reset)),
            Seq::<Effect>::empty(),
        ),
        run(waiting(active, Wait::Write(fresh_write_job(settings_plan(default_settings())), Purpose::Reset)), write_ok_inputs(g))
            == (idle(false), seq![Effect::ClearState, Effect::UpdateIcon { active: false }, Effect::Notify(Notice::ResetDone)]),
{
    lemma_write_job_ok(active, settings_plan(default_settings()), Purpose::Reset, g);
}

// ---------------------------------------------------------------------------
// Window messages
// ---------------------------------------------------------------------------

/// `WM_CREATE`.
pub const WM_CREATE: u32 = 0x0001;

/// `WM_DESTROY`.
pub const WM_DESTROY: u32 = 0x0002;

/// `WM_COMMAND`.
pub const WM_COMMAND: u32 = 0x0111;

/// `WM_LBUTTONUP`.
pub const WM_LBUTTONUP: u32 = 0x0202;

/// `WM_RBUTTONUP`.
pub const WM_RBUTTONUP: u32 = 0x0205;

/// `WM_APP`, the first message number free for applications.
pub const WM_APP: u32 = 0x8000;

/// The message the shell sends about the tray icon.
pub const WM_TRAY: u32 = WM_APP + 1;

/// Menu command ids.
pub const ID_STATUS: usize = 100;
pub const ID_RESET: usize = 101;
pub const ID_AUTOSTART: usize = 102;
pub const ID_QUIT: usize = 103;

/// What the window procedure does with a message.
#[derive(Clone, Copy, Debug, PartialEq, Eq, Structural)]
pub enum Dispatch {
    /// `WM_CREATE`: keep the creation parameter.
    Create,
    /// Hand this event to the machine, then return 0.
    Handle(Event),
    /// Return 0 and do nothing else.
    Consume,
    /// Leave the message to `DefWindowProcW`.
    Default,
}

pub open spec fn spec_command_event(id: usize) -> Option<Event> {
    if id == ID_RESET {
        Some(Event::MenuReset)
    } else if id == ID_AUTOSTART {
        Some(Event::MenuAutostart)
    } else if id == ID_QUIT {
        Some(Event::MenuQuit)
    } else {
        None
    }
}

/// What a window message means. `taskbar_created` is the number of the
/// shell's "TaskbarCreated" broadcast, 0 while it is not known.
pub open spec fn spec_classify(msg: u32, wparam: usize, lparam: isize, taskbar_created: u32) -> Dispatch {
    if msg == WM_CREATE {
        Dispatch::Create
    } else if taskbar_created != 0 && msg == taskbar_created {
        Dispatch::Handle(Event::TaskbarCreated)
    } else if msg == WM_TRAY {
        let what = lparam as u32;
        if what == WM_LBUTTONUP {
            Dispatch::Handle(Event::LeftClick)
        } else if what == WM_RBUTTONUP {
            Dispatch::Handle(Event::RightClick)
        } else {
            Dispatch::Consume
        }
    } else if msg == WM_COMMAND {
        match spec_command_event(wparam % 0x10000) {
            Some(e) => Dispatch::Handle(e),
            None => Dispatch::Consume,
        }
    } else if msg == WM_DESTROY {
        Dispatch::Handle(Event::Destroy)
    } else {
        Dispatch::Default
    }
}

/// How window messages are decoded, for any number `taskbar_created` that
/// the taskbar broadcast has (0 while unknown): `WM_CREATE` is creation; the
/// broadcast, and only it, re-adds the icon; on the tray message a left
/// button up toggles, a right button up opens the menu and anything else is
/// swallowed; a menu command acts by the low word of `wparam`; `WM_DESTROY`
/// ends; every other message goes to the default procedure.
pub proof fn law_classify(msg: u32, wparam: usize, lparam: isize, taskbar_created: u32)
    ensures
        ({
            let d = spec_classify(msg, wparam, lparam, taskbar_created);
            let broadcast = taskbar_created != 0 && msg == taskbar_created;
            let what = lparam as u32;
            let id = wparam % 0x10000;
            &&& (d == Dispatch::Create) <==> msg == WM_CREATE
            &&& (d == Dispatch::Handle(Event::TaskbarCreated)) <==> (broadcast && msg != WM_CREATE)
            &&& (msg == WM_TRAY && !broadcast && what == WM_LBUTTONUP) ==> d == Dispatch::Handle(Event::LeftClick)
            &&& (msg == WM_TRAY && !broadcast && what == WM_RBUTTONUP) ==> d == Dispatch::Handle(Event::RightClick)
            &&& (msg == WM_TRAY && !broadcast && what != WM_LBUTTONUP && what != WM_RBUTTONUP) ==> d == Dispatch::Consume
            &&& (d == Dispatch::Handle(Event::LeftClick) || d == Dispatch::Handle(Event::RightClick)) ==> msg == WM_TRAY
            &&& (msg == WM_COMMAND && !broadcast && id == ID_RESET) ==> d == Dispatch::Handle(Event::MenuReset)
            &&& (msg == WM_COMMAND && !broadcast && id == ID_AUTOSTART) ==> d == Dispatch::Handle(Event::MenuAutostart)
            &&& (msg == WM_COMMAND && !broadcast && id == ID_QUIT) ==> d == Dispatch::Handle(Event::MenuQuit)
            &&& (msg == WM_COMMAND && !broadcast && id != ID_RESET && id != ID_AUTOSTART && id != ID_QUIT)
                ==> d == Dispatch::Consume
            &&& (d == Dispatch::Handle(Event::MenuReset) || d == Dispatch::Handle(Event::MenuAutostart)
                || d == Dispatch::Handle(Event::MenuQuit)) ==> msg == WM_COMMAND
            &&& (msg == WM_DESTROY && !broadcast) ==> d == Dispatch::Handle(Event::Destroy)
            &&& (d == Dispatch::Handle(Event::Destroy)) ==> msg == WM_DESTROY
            &&& (msg != WM_CREATE && msg != WM_TRAY && msg != WM_COMMAND && msg != WM_DESTROY && !broadcast)
                ==> d == Dispatch::Default
            &&& (d == Dispatch::Default) ==> (msg != WM_CREATE && msg != WM_TRAY && msg != WM_COMMAND
                && msg != WM_DESTROY && !broadcast)
        }),
{
}

/// Decodes a window message: the tray callback (left or right button up),
/// a menu command (its id in the low word of `wparam`), the taskbar
/// broadcast, creation and destruction.
pub fn classify_message(msg: u32, wparam: usize, lparam: isize, taskbar_created: u32) -> (d: Dispatch)
    ensures
        d == spec_classify(msg, wparam, lparam, taskbar_created),
{
    if msg == WM_CREATE {
        Dispatch::Create
    } else if taskbar_created != 0 && msg == taskbar_created {
        Dispatch::Handle(Event::TaskbarCreated)
    } else if msg == WM_TRAY {
        let what: u32 = lparam as u32;
        if what == WM_LBUTTONUP {
            Dispatch::Handle(Event::LeftClick)
        } else if what == WM_RBUTTONUP {
            Dispatch::Handle(Event::RightClick)
        } else {
            Dispatch::Consume
        }
    } else if msg == WM_COMMAND {
        let id: usize = wparam & 0xFFFF;
        assert(wparam & 0xFFFF == wparam % 0x10000) by (bit_vector);
        if id == ID_RESET {
            Dispatch::Handle(Event::MenuReset)
        } else if id == ID_AUTOSTART {
            Dispatch::Handle(Event::MenuAutostart)
        } else if id == ID_QUIT {
            Dispatch::Handle(Event::MenuQuit)
        } else {
            Dispatch::Consume
        }
    } else if msg == WM_DESTROY {
        Dispatch::Handle(Event::Destroy)
    } else {
        Dispatch::Default
    }
}

} // verus!
