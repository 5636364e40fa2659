use titration_curve::signal::Signal;

const ALL: [Signal; 4] = [Signal::Update, Signal::Unload, Signal::FileDialog, Signal::Stop];

#[test]
fn file_dialog_and_stop_are_locks() {
    assert!(Signal::FileDialog.is_lock());
    assert!(Signal::Stop.is_lock());
}

#[test]
fn update_and_unload_are_no_locks() {
    assert!(!Signal::Update.is_lock());
    assert!(!Signal::Unload.is_lock());
}

#[test]
fn stop_lock_skips_every_signal() {
    for signal in ALL {
        assert!(signal.should_skip(Signal::Stop), "{signal:?}");
    }
}

#[test]
fn file_dialog_lock_skips_updates_only() {
    assert!(Signal::Update.should_skip(Signal::FileDialog));
    assert!(!Signal::Unload.should_skip(Signal::FileDialog));
    assert!(!Signal::FileDialog.should_skip(Signal::FileDialog));
    assert!(!Signal::Stop.should_skip(Signal::FileDialog));
}

#[test]
fn what_a_file_dialog_lock_skips_a_stop_lock_skips_too() {
    for signal in ALL {
        if signal.should_skip(Signal::FileDialog) {
            assert!(signal.should_skip(Signal::Stop), "{signal:?}");
        }
    }
}

#[test]
fn signals_that_are_no_locks_skip_nothing() {
    for signal in ALL {
        assert!(!signal.should_skip(Signal::Update), "{signal:?}");
        assert!(!signal.should_skip(Signal::Unload), "{signal:?}");
    }
}

#[test]
fn stop_lock_is_never_unlocked() {
    for signal in ALL {
        assert!(!signal.can_unlock(Signal::Stop), "{signal:?}");
    }
}

#[test]
fn file_dialog_lock_is_unlocked_by_equal_or_higher_rank() {
    assert!(Signal::FileDialog.can_unlock(Signal::FileDialog));
    assert!(Signal::Stop.can_unlock(Signal::FileDialog));
    assert!(!Signal::Update.can_unlock(Signal::FileDialog));
    assert!(!Signal::Unload.can_unlock(Signal::FileDialog));
}

#[test]
fn lower_locks_are_unlocked_by_equal_or_higher_rank() {
    for signal in ALL {
        assert!(signal.can_unlock(Signal::Update), "{signal:?}");
    }
    assert!(!Signal::Update.can_unlock(Signal::Unload));
    assert!(Signal::Unload.can_unlock(Signal::Unload));
    assert!(Signal::FileDialog.can_unlock(Signal::Unload));
    assert!(Signal::Stop.can_unlock(Signal::Unload));
}

#[test]
fn signals_are_ordered_by_rank() {
    assert!(Signal::Update < Signal::Unload);
    assert!(Signal::Unload < Signal::FileDialog);
    assert!(Signal::FileDialog < Signal::Stop);
}
