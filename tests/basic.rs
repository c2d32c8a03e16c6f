use killswitch_std::{KillSwitch, KillSwitchErr, KillSwitchWatcher};

#[test]
#[should_panic]
fn double_flip() {
    let k = KillSwitch::default();

    let _ = k.kill();

    k.kill().unwrap();
}

#[test]
fn fresh_switch_is_alive() {
    let k = KillSwitch::default();
    assert!(k.is_alive());
    assert!(k.watcher().is_alive());
}

#[test]
fn kill_reaches_earlier_watcher() {
    let k = KillSwitch::default();
    let w = k.watcher();
    assert!(w.is_alive());
    assert_eq!(k.kill(), Ok(()));
    assert!(!w.is_alive());
    assert!(!k.is_alive());
}

#[test]
fn second_kill_is_already_killed() {
    let k = KillSwitch::default();
    assert_eq!(k.kill(), Ok(()));
    assert_eq!(k.kill(), Err(KillSwitchErr::AlreadyKilled));
    assert_eq!(k.kill(), Err(KillSwitchErr::AlreadyKilled));
}

#[test]
fn watchers_before_and_after_kill() {
    let k = KillSwitch::default();
    let before = k.watcher();
    let before_clone = before.clone();
    k.kill().unwrap();
    let after = k.watcher();
    assert!(!before.is_alive());
    assert!(!before_clone.is_alive());
    assert!(!after.is_alive());
    assert!(!after.clone().is_alive());
}

#[test]
fn rendering_follows_state() {
    let k = KillSwitch::default();
    let w = k.watcher();
    assert_eq!(k.to_string(), "alive");
    assert_eq!(w.to_string(), "alive");
    assert_eq!(k.to_string() == "alive", k.is_alive());
    k.kill().unwrap();
    assert_eq!(k.to_string(), "killed");
    assert_eq!(w.to_string(), "killed");
    assert_eq!(w.to_string() == "alive", w.is_alive());
}

#[test]
fn ten_watchers_see_one_kill() {
    let k = KillSwitch::default();
    let watchers: Vec<KillSwitchWatcher> = (0..10).map(|_| k.watcher()).collect();
    for _ in 0..2 {
        for w in &watchers {
            assert!(w.is_alive());
        }
    }
    let results: Vec<Result<(), KillSwitchErr>> = vec![k.kill()];
    assert_eq!(results.iter().filter(|r| r.is_ok()).count(), 1);
    for _ in 0..2 {
        for w in &watchers {
            assert!(!w.is_alive());
        }
    }
}

#[test]
fn two_switches_one_winner() {
    let a = KillSwitch::default();
    let b = a.clone();
    let ra = a.kill();
    let rb = b.kill();
    assert_eq!(ra, Ok(()));
    assert_eq!(rb, Err(KillSwitchErr::AlreadyKilled));
    assert!(!a.is_alive());
    assert!(!b.is_alive());
}

#[test]
fn clones_share_the_flag() {
    let a = KillSwitch::default();
    let b = a.clone();
    let w = b.watcher();
    b.kill().unwrap();
    assert!(!a.is_alive());
    assert!(!w.is_alive());
    assert_eq!(a.kill(), Err(KillSwitchErr::AlreadyKilled));
}

#[test]
fn separate_switches_are_independent() {
    let a = KillSwitch::default();
    let b = KillSwitch::default();
    a.kill().unwrap();
    assert!(!a.is_alive());
    assert!(b.is_alive());
    assert_eq!(b.kill(), Ok(()));
}
