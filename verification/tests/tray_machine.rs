use clam::power::{PowerKey, PowerQuery, PowerReply, PowerSetting, PowerSource, PowerWrite};
use clam::state::SavedState;
use clam::text::Notice;
use clam::tray::{
    classify_message, Answer, Clam, Dispatch, Effect, Event, Query, Step, ID_AUTOSTART, ID_QUIT, ID_RESET,
    ID_STATUS, WM_APP, WM_COMMAND, WM_CREATE, WM_DESTROY, WM_LBUTTONUP, WM_RBUTTONUP, WM_TRAY,
};

/// A pretend Windows: power values keyed by setting and source, a state
/// file, an autostart flag, and error codes to fail with.
struct FakeHost {
    scheme: u128,
    values: [u32; 4],
    file: Option<SavedState>,
    file_readable: bool,
    autostart: bool,
    fail_read: Option<u32>,
    fail_save: Option<String>,
    fail_write_after: Option<(usize, u32)>,
    writes_made: usize,
    queries: Vec<Query>,
    effects: Vec<Effect>,
}

fn slot(k: PowerKey) -> usize {
    match (k.setting, k.source) {
        (PowerSetting::LidClose, PowerSource::AC) => 0,
        (PowerSetting::LidClose, PowerSource::DC) => 1,
        (PowerSetting::StandbyIdle, PowerSource::AC) => 2,
        (PowerSetting::StandbyIdle, PowerSource::DC) => 3,
    }
}

impl FakeHost {
    fn new(values: [u32; 4]) -> FakeHost {
        FakeHost {
            scheme: 42,
            values,
            file: None,
            file_readable: true,
            autostart: false,
            fail_read: None,
            fail_save: None,
            fail_write_after: None,
            writes_made: 0,
            queries: Vec::new(),
            effects: Vec::new(),
        }
    }

    fn answer(&mut self, q: Query) -> Answer {
        match q {
            Query::Power(PowerQuery::ActiveScheme) => Answer::Power(PowerReply::Scheme(Ok(self.scheme))),
            Query::Power(PowerQuery::Read { key, .. }) => match self.fail_read {
                Some(c) => Answer::Power(PowerReply::Value(Err(c))),
                None => Answer::Power(PowerReply::Value(Ok(self.values[slot(key)]))),
            },
            Query::Power(PowerQuery::Write { write, .. }) => {
                if let Some((n, c)) = self.fail_write_after {
                    if self.writes_made == n {
                        return Answer::Power(PowerReply::Status(Err(c)));
                    }
                }
                self.writes_made += 1;
                self.values[slot(write.key)] = write.value;
                Answer::Power(PowerReply::Status(Ok(())))
            }
            Query::Power(PowerQuery::Apply { .. }) => Answer::Power(PowerReply::Status(Ok(()))),
            Query::SaveState(s) => match &self.fail_save {
                Some(e) => Answer::Saved(Err(e.clone())),
                None => {
                    self.file = Some(s);
                    Answer::Saved(Ok(()))
                }
            },
            Query::LoadState => Answer::Loaded(if self.file_readable { self.file } else { None }),
            Query::StateFileExists => Answer::Exists(self.file.is_some()),
            Query::AutostartEnabled => Answer::Autostart(self.autostart),
        }
    }

    fn perform(&mut self, step: Step, m: &mut Clam) {
        let mut step = step;
        loop {
            for e in step.effects {
                match &e {
                    Effect::ClearState => self.file = None,
                    Effect::SetAutostart(on) => self.autostart = *on,
                    _ => {}
                }
                self.effects.push(e);
            }
            match step.query {
                None => return,
                Some(q) => {
                    self.queries.push(q);
                    let a = self.answer(q);
                    step = m.answer(a);
                }
            }
        }
    }

    fn event(&mut self, m: &mut Clam, e: Event) {
        let step = m.handle(e);
        self.perform(step, m);
    }
}

#[test]
fn toggle_on_then_off_restores_exact_settings() {
    let original = [3u32, 2, 600, 300];
    let mut host = FakeHost::new(original);
    let mut m = Clam::new();
    host.event(&mut m, Event::LeftClick);
    assert!(m.is_active());
    assert_eq!(host.values, [0, 0, 0, 0]);
    assert_eq!(host.file, Some(SavedState { lid_close_ac: 3, lid_close_dc: 2, sleep_idle_ac: 600, sleep_idle_dc: 300 }));
    assert_eq!(
        host.effects,
        vec![Effect::UpdateIcon { active: true }, Effect::Notify(Notice::StayAwakeOn)]
    );
    host.effects.clear();
    host.event(&mut m, Event::LeftClick);
    assert!(!m.is_active());
    assert_eq!(host.values, original);
    assert_eq!(host.file, None);
    assert_eq!(
        host.effects,
        vec![Effect::ClearState, Effect::UpdateIcon { active: false }, Effect::Notify(Notice::OffRestored)]
    );
}

#[test]
fn toggle_on_saves_before_writing() {
    let mut host = FakeHost::new([1, 1, 1800, 900]);
    let mut m = Clam::new();
    host.event(&mut m, Event::LeftClick);
    let save_at = host.queries.iter().position(|q| matches!(q, Query::SaveState(_))).unwrap();
    let first_write = host
        .queries
        .iter()
        .position(|q| matches!(q, Query::Power(PowerQuery::Write { .. })))
        .unwrap();
    assert!(save_at < first_write);
    assert_eq!(host.queries[0], Query::Power(PowerQuery::ActiveScheme));
}

#[test]
fn toggle_off_without_state_file_writes_defaults() {
    let mut host = FakeHost::new([3, 2, 600, 300]);
    let mut m = Clam::new();
    host.event(&mut m, Event::LeftClick);
    host.file_readable = false;
    host.effects.clear();
    host.event(&mut m, Event::LeftClick);
    assert!(!m.is_active());
    assert_eq!(host.values, [1, 1, 1800, 900]);
    assert_eq!(
        host.effects,
        vec![Effect::ClearState, Effect::UpdateIcon { active: false }, Effect::Notify(Notice::OffDefaults)]
    );
}

#[test]
fn read_failure_is_reported_and_nothing_changes() {
    let mut host = FakeHost::new([3, 2, 600, 300]);
    host.fail_read = Some(2);
    let mut m = Clam::new();
    host.event(&mut m, Event::LeftClick);
    assert!(!m.is_active());
    assert_eq!(host.values, [3, 2, 600, 300]);
    assert_eq!(host.effects, vec![Effect::Notify(Notice::ReadFailed(2))]);
    assert_eq!(m.query(), None);
}

#[test]
fn save_failure_is_reported_and_nothing_is_written() {
    let mut host = FakeHost::new([3, 2, 600, 300]);
    host.fail_save = Some(String::from("create dir: denied"));
    let mut m = Clam::new();
    host.event(&mut m, Event::LeftClick);
    assert!(!m.is_active());
    assert_eq!(host.values, [3, 2, 600, 300]);
    assert_eq!(host.effects, vec![Effect::Notify(Notice::SaveFailed(String::from("create dir: denied")))]);
}

#[test]
fn denied_write_clears_state_and_says_access_denied() {
    let mut host = FakeHost::new([3, 2, 600, 300]);
    host.fail_write_after = Some((0, 5));
    let mut m = Clam::new();
    host.event(&mut m, Event::LeftClick);
    assert!(!m.is_active());
    assert_eq!(host.file, None);
    assert_eq!(host.effects, vec![Effect::ClearState, Effect::Notify(Notice::AccessDenied)]);
}

#[test]
fn other_write_error_is_reported_with_its_code() {
    let mut host = FakeHost::new([3, 2, 600, 300]);
    host.fail_write_after = Some((2, 1168));
    let mut m = Clam::new();
    host.event(&mut m, Event::LeftClick);
    assert!(!m.is_active());
    assert_eq!(host.effects, vec![Effect::ClearState, Effect::Notify(Notice::WriteFailed(1168))]);
    assert_eq!(host.writes_made, 2);
}

#[test]
fn restore_failure_keeps_stay_awake_on() {
    let mut host = FakeHost::new([3, 2, 600, 300]);
    let mut m = Clam::new();
    host.event(&mut m, Event::LeftClick);
    host.effects.clear();
    host.writes_made = 0;
    host.fail_write_after = Some((0, 31));
    host.event(&mut m, Event::LeftClick);
    assert!(m.is_active());
    assert!(host.file.is_some());
    assert_eq!(host.effects, vec![Effect::Notify(Notice::RestoreFailed(31))]);
}

#[test]
fn reset_writes_defaults_and_turns_off() {
    let mut host = FakeHost::new([3, 2, 600, 300]);
    let mut m = Clam::new();
    host.event(&mut m, Event::LeftClick);
    host.effects.clear();
    host.event(&mut m, Event::MenuReset);
    assert!(!m.is_active());
    assert_eq!(host.values, [1, 1, 1800, 900]);
    assert_eq!(host.file, None);
    assert_eq!(
        host.effects,
        vec![Effect::ClearState, Effect::UpdateIcon { active: false }, Effect::Notify(Notice::ResetDone)]
    );
}

#[test]
fn reset_failure_is_reported() {
    let mut host = FakeHost::new([3, 2, 600, 300]);
    host.fail_write_after = Some((1, 87));
    let mut m = Clam::new();
    host.event(&mut m, Event::MenuReset);
    assert_eq!(host.effects, vec![Effect::Notify(Notice::ResetFailed(87))]);
}

#[test]
fn quit_while_active_restores_then_ends() {
    let mut host = FakeHost::new([3, 2, 600, 300]);
    let mut m = Clam::new();
    host.event(&mut m, Event::LeftClick);
    host.effects.clear();
    host.event(&mut m, Event::MenuQuit);
    assert_eq!(host.values, [3, 2, 600, 300]);
    assert_eq!(host.effects, vec![Effect::ClearState, Effect::RemoveIcon, Effect::PostQuit]);
}

#[test]
fn quit_while_inactive_only_ends() {
    let mut host = FakeHost::new([3, 2, 600, 300]);
    let mut m = Clam::new();
    host.event(&mut m, Event::MenuQuit);
    assert!(host.queries.is_empty());
    assert_eq!(host.effects, vec![Effect::RemoveIcon, Effect::PostQuit]);
}

#[test]
fn launch_after_a_crash_restores_and_clears() {
    let mut host = FakeHost::new([0, 0, 0, 0]);
    host.file = Some(SavedState { lid_close_ac: 3, lid_close_dc: 2, sleep_idle_ac: 600, sleep_idle_dc: 300 });
    let mut m = Clam::new();
    host.event(&mut m, Event::Launch);
    assert!(!m.is_active());
    assert_eq!(host.values, [3, 2, 600, 300]);
    assert_eq!(host.file, None);
    assert_eq!(host.effects, vec![Effect::ClearState, Effect::AddIcon { active: false }]);
}

#[test]
fn launch_with_unreadable_state_writes_defaults() {
    let mut host = FakeHost::new([0, 0, 0, 0]);
    host.file = Some(SavedState { lid_close_ac: 3, lid_close_dc: 2, sleep_idle_ac: 600, sleep_idle_dc: 300 });
    host.file_readable = false;
    let mut m = Clam::new();
    host.event(&mut m, Event::Launch);
    assert_eq!(host.values, [1, 1, 1800, 900]);
    assert_eq!(host.file, None);
}

#[test]
fn launch_without_state_file_only_shows_the_icon() {
    let mut host = FakeHost::new([3, 2, 600, 300]);
    let mut m = Clam::new();
    host.event(&mut m, Event::Launch);
    assert_eq!(host.queries, vec![Query::StateFileExists]);
    assert_eq!(host.effects, vec![Effect::AddIcon { active: false }]);
}

#[test]
fn right_click_shows_menu_with_autostart_state() {
    let mut host = FakeHost::new([3, 2, 600, 300]);
    host.autostart = true;
    let mut m = Clam::new();
    host.event(&mut m, Event::RightClick);
    assert_eq!(host.effects, vec![Effect::ShowMenu { active: false, autostart: true }]);
}

#[test]
fn autostart_item_flips_autostart() {
    let mut host = FakeHost::new([3, 2, 600, 300]);
    let mut m = Clam::new();
    host.event(&mut m, Event::MenuAutostart);
    assert!(host.autostart);
    host.event(&mut m, Event::MenuAutostart);
    assert!(!host.autostart);
    assert_eq!(host.effects, vec![Effect::SetAutostart(true), Effect::SetAutostart(false)]);
}

#[test]
fn taskbar_restart_re_adds_the_icon_for_the_state() {
    let mut host = FakeHost::new([3, 2, 600, 300]);
    let mut m = Clam::new();
    host.event(&mut m, Event::LeftClick);
    host.effects.clear();
    host.event(&mut m, Event::TaskbarCreated);
    assert_eq!(host.effects, vec![Effect::AddIcon { active: true }]);
}

#[test]
fn destroy_ends_the_loop() {
    let mut m = Clam::new();
    let step = m.handle(Event::Destroy);
    assert_eq!(step.effects, vec![Effect::PostQuit]);
    assert_eq!(step.query, None);
}

#[test]
fn busy_machine_ignores_events_and_wrong_answers() {
    let mut m = Clam::new();
    let step = m.handle(Event::LeftClick);
    assert_eq!(step.query, Some(Query::Power(PowerQuery::ActiveScheme)));
    let before = m;
    let step = m.handle(Event::MenuQuit);
    assert!(step.effects.is_empty());
    assert_eq!(step.query, Some(Query::Power(PowerQuery::ActiveScheme)));
    assert_eq!(m, before);
    let step = m.answer(Answer::Autostart(true));
    assert!(step.effects.is_empty());
    assert_eq!(m, before);
    let step = m.answer(Answer::Power(PowerReply::Value(Ok(1))));
    assert!(step.effects.is_empty());
    assert_eq!(m, before);
}

#[test]
fn window_messages_become_events() {
    assert_eq!(WM_TRAY, WM_APP + 1);
    assert_eq!(classify_message(WM_CREATE, 0, 0, 0), Dispatch::Create);
    assert_eq!(classify_message(WM_TRAY, 0, WM_LBUTTONUP as isize, 0), Dispatch::Handle(Event::LeftClick));
    assert_eq!(classify_message(WM_TRAY, 0, WM_RBUTTONUP as isize, 0), Dispatch::Handle(Event::RightClick));
    assert_eq!(classify_message(WM_TRAY, 0, 0x0200, 0), Dispatch::Consume);
    assert_eq!(classify_message(WM_COMMAND, ID_RESET, 0, 0), Dispatch::Handle(Event::MenuReset));
    assert_eq!(classify_message(WM_COMMAND, ID_AUTOSTART, 0, 0), Dispatch::Handle(Event::MenuAutostart));
    assert_eq!(classify_message(WM_COMMAND, ID_QUIT | 0x10000, 0, 0), Dispatch::Handle(Event::MenuQuit));
    assert_eq!(classify_message(WM_COMMAND, ID_STATUS, 0, 0), Dispatch::Consume);
    assert_eq!(classify_message(WM_DESTROY, 0, 0, 0), Dispatch::Handle(Event::Destroy));
    assert_eq!(classify_message(0xC0DE, 0, 0, 0xC0DE), Dispatch::Handle(Event::TaskbarCreated));
    assert_eq!(classify_message(0xC0DE, 0, 0, 0), Dispatch::Default);
    assert_eq!(classify_message(0x000F, 0, 0, 0xC0DE), Dispatch::Default);
}

#[test]
fn stay_awake_values_written_on_both_sources() {
    let mut host = FakeHost::new([3, 2, 600, 300]);
    let mut m = Clam::new();
    host.event(&mut m, Event::LeftClick);
    let writes: Vec<PowerWrite> = host
        .queries
        .iter()
        .filter_map(|q| match q {
            Query::Power(PowerQuery::Write { write, .. }) => Some(*write),
            _ => None,
        })
        .collect();
    assert_eq!(writes.len(), 4);
    assert!(writes.iter().all(|w| w.value == 0));
}

#[test]
fn every_toggle_notifies_once_and_keeps_file_and_icon_in_step() {
    // (read error, save error, write error at n) for toggling on, then toggling off.
    let setups: Vec<(Option<u32>, Option<String>, Option<(usize, u32)>)> = vec![
        (None, None, None),
        (Some(2), None, None),
        (None, Some(String::from("write: full")), None),
        (None, None, Some((0, 5))),
        (None, None, Some((3, 1168))),
    ];
    for (read, save, write) in setups {
        for off_failure in [None, Some((1usize, 31u32))] {
            let mut host = FakeHost::new([3, 2, 600, 300]);
            host.fail_read = read;
            host.fail_save = save.clone();
            host.fail_write_after = write;
            let mut m = Clam::new();
            let mut icon = false;
            for round in 0..2 {
                if round == 1 {
                    host.fail_read = None;
                    host.fail_save = None;
                    host.writes_made = 0;
                    host.fail_write_after = off_failure;
                }
                let before = m.is_active();
                host.effects.clear();
                host.event(&mut m, Event::LeftClick);
                let notices = host.effects.iter().filter(|e| matches!(e, Effect::Notify(_))).count();
                assert_eq!(notices, 1);
                assert!(matches!(host.effects.last(), Some(Effect::Notify(_))));
                let updates: Vec<bool> = host
                    .effects
                    .iter()
                    .filter_map(|e| match e {
                        Effect::UpdateIcon { active } => Some(*active),
                        _ => None,
                    })
                    .collect();
                if let Some(a) = updates.last() {
                    icon = *a;
                }
                assert_eq!(updates.len(), if before != m.is_active() { 1 } else { 0 });
                assert_eq!(icon, m.is_active());
                assert_eq!(host.file.is_some(), m.is_active());
            }
        }
    }
}
