use pino::{line_breaks, DisplayState, LoopAction, LoopEvent, NotificationUpdate, Phase};

fn update(title: &str, message: &str, delay: u64) -> NotificationUpdate {
    NotificationUpdate { title: title.to_string(), message: message.to_string(), delay }
}

#[test]
fn first_update_arms_the_timer() {
    let s = DisplayState::new(update("Build", "Started", 5), 1000);
    assert_eq!(s.title(), "Build");
    assert_eq!(s.message(), "Started");
    assert_eq!(s.phase(), Phase::Armed { delay: 5, deadline: 6000 });
}

#[test]
fn second_update_shortens_the_popup() {
    let mut s = DisplayState::new(update("Build", "Started", 5), 0);
    let a = s.step(LoopEvent::Received(update("Build", "Passed", 2)), 2000);
    assert_eq!(a, LoopAction::Repaint { title_changed: false, message_changed: true });
    assert_eq!(s.title(), "Build");
    assert_eq!(s.message(), "Passed");
    assert_eq!(s.phase(), Phase::Armed { delay: 2, deadline: 4000 });
    assert_eq!(s.step(LoopEvent::Tick, 3999), LoopAction::Wait);
    assert_eq!(s.step(LoopEvent::Tick, 4000), LoopAction::Close);
    assert_eq!(s.phase(), Phase::Closed);
}

#[test]
fn last_of_many_updates_wins() {
    let mut s = DisplayState::new(update("a", "1", 4), 0);
    s.step(LoopEvent::Received(update("b", "2", 9)), 100);
    s.step(LoopEvent::Received(update("c", "3", 1)), 200);
    s.step(LoopEvent::Received(update("d", "4", 7)), 300);
    assert_eq!(s.title(), "d");
    assert_eq!(s.message(), "4");
    assert_eq!(s.phase(), Phase::Armed { delay: 7, deadline: 7300 });
}

#[test]
fn same_delay_keeps_the_deadline() {
    let mut s = DisplayState::new(update("a", "1", 4), 0);
    let a = s.step(LoopEvent::Received(update("b", "2", 4)), 3000);
    assert_eq!(a, LoopAction::Repaint { title_changed: true, message_changed: true });
    assert_eq!(s.phase(), Phase::Armed { delay: 4, deadline: 4000 });
}

#[test]
fn new_delay_with_same_text_restarts_timer_without_repaint() {
    let mut s = DisplayState::new(update("Build", "Started", 5), 0);
    let a = s.step(LoopEvent::Received(update("Build", "Started", 10)), 4000);
    assert_eq!(a, LoopAction::Wait);
    assert_eq!(s.phase(), Phase::Armed { delay: 10, deadline: 14000 });
    assert_eq!(s.step(LoopEvent::Tick, 5000), LoopAction::Wait);
}

#[test]
fn press_closes_before_the_deadline() {
    let mut s = DisplayState::new(update("t", "m", 3600), 0);
    assert_eq!(s.step(LoopEvent::Press, 1), LoopAction::Close);
    assert_eq!(s.phase(), Phase::Closed);
    assert_eq!(s.step(LoopEvent::Received(update("x", "y", 1)), 2), LoopAction::Close);
    assert_eq!(s.title(), "t");
}

#[test]
fn huge_delay_saturates() {
    let s = DisplayState::new(update("t", "m", u64::MAX), 5);
    assert_eq!(s.phase(), Phase::Armed { delay: u64::MAX, deadline: u64::MAX });
    let s2 = DisplayState::new(update("t", "m", 0), 5);
    assert_eq!(s2.phase(), Phase::Armed { delay: 0, deadline: 5 });
}

#[test]
fn written_newlines_become_line_breaks() {
    assert_eq!(line_breaks("one\\ntwo"), "one\ntwo");
    assert_eq!(line_breaks("\\n\\n"), "\n\n");
    assert_eq!(line_breaks("tail\\"), "tail\\");
    assert_eq!(line_breaks("\\\\n"), "\\\n");
    assert_eq!(line_breaks(""), "");
}
