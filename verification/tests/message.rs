use windows_app::message::{
    Message, Notification, APP_UPDATE_PROGRESS, APP_UPDATE_RESULT, CTRL_EN_DIS, WM_USER,
    WM_USER_LAST,
};

#[test]
fn codes_are_the_three_after_wm_user() {
    assert_eq!(WM_USER, 0x0400);
    assert_eq!(APP_UPDATE_PROGRESS, 0x0401);
    assert_eq!(APP_UPDATE_RESULT, 0x0402);
    assert_eq!(CTRL_EN_DIS, 0x0403);
    assert_eq!(Notification::UpdateProgress.code(), 0x0401);
    assert_eq!(Notification::UpdateResult.code(), 0x0402);
    assert_eq!(Notification::CtrlEnDis.code(), 0x0403);
}

#[test]
fn codes_are_distinct_and_in_the_user_range() {
    let kinds = [Notification::UpdateProgress, Notification::UpdateResult, Notification::CtrlEnDis];
    for a in kinds {
        assert!(a.code() > WM_USER && a.code() <= WM_USER_LAST);
        assert_eq!(Notification::from_code(a.code()), Some(a));
        for b in kinds {
            assert_eq!(a.code() == b.code(), a == b);
        }
    }
}

#[test]
fn other_codes_are_no_notification() {
    assert_eq!(Notification::from_code(0), None);
    assert_eq!(Notification::from_code(1), None);
    assert_eq!(Notification::from_code(WM_USER), None);
    assert_eq!(Notification::from_code(0x0404), None);
    assert_eq!(Notification::from_code(u32::MAX), None);
}

#[test]
fn each_message_has_its_kind() {
    let p = Message::ProgressUpdate { current: 1, total: 30, label: String::from("x") };
    let r = Message::ResultAppend { line: String::from("y") };
    let c = Message::SetControlEnabled { id: 2, enabled: false };
    assert_eq!(p.notification(), Notification::UpdateProgress);
    assert_eq!(r.notification(), Notification::UpdateResult);
    assert_eq!(c.notification(), Notification::CtrlEnDis);
}

#[test]
fn duplicate_says_the_same() {
    let p = Message::ProgressUpdate { current: 3, total: 30, label: String::from("x") };
    let r = Message::ResultAppend { line: String::from("y") };
    let c = Message::SetControlEnabled { id: 2, enabled: true };
    assert_eq!(p.duplicate(), p);
    assert_eq!(r.duplicate(), r);
    assert_eq!(c.duplicate(), c);
}
