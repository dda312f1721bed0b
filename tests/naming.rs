use systemd_user_sleep::{push_decimal, scope_name, CloexecPlan, InhibitRequest, ScopeRequest};

#[test]
fn scope_names() {
    assert_eq!(scope_name(0), "systemd-user-sleep-0.scope");
    assert_eq!(scope_name(7), "systemd-user-sleep-7.scope");
    assert_eq!(scope_name(10), "systemd-user-sleep-10.scope");
    assert_eq!(scope_name(1234), "systemd-user-sleep-1234.scope");
    assert_eq!(scope_name(u32::MAX), "systemd-user-sleep-4294967295.scope");
}

#[test]
fn decimal_appends() {
    let mut s = String::from("pid=");
    push_decimal(&mut s, 90210);
    assert_eq!(s, "pid=90210");
}

#[test]
fn empty_activation_list() {
    let req = ScopeRequest::for_process(&Vec::new(), 55);
    assert!(req.wants.is_empty());
    assert!(req.after.is_empty());
    assert_eq!(req.pids, vec![55]);
    assert_eq!(req.name, "systemd-user-sleep-55.scope");
}

#[test]
fn several_activation_targets_keep_order() {
    let activate = vec![String::from("a.target"), String::from("b.service")];
    let req = ScopeRequest::for_process(&activate, 1);
    assert_eq!(req.wants, activate);
    assert_eq!(req.after, activate);
}

#[test]
fn cloexec_plans() {
    assert_eq!(CloexecPlan::for_flags(-1), CloexecPlan::Unreadable);
    assert_eq!(CloexecPlan::for_flags(1), CloexecPlan::AlreadySet);
    assert_eq!(CloexecPlan::for_flags(3), CloexecPlan::AlreadySet);
    assert_eq!(CloexecPlan::for_flags(0), CloexecPlan::Enable(1));
    assert_eq!(CloexecPlan::for_flags(6), CloexecPlan::Enable(7));
}

#[test]
fn inhibit_request_arguments() {
    let r = InhibitRequest::sleep_delay();
    assert_eq!(r.what, "sleep");
    assert_eq!(r.who, "systemd-user-sleep");
    assert_eq!(r.why, "Wait for user sleep target to be reached");
    assert_eq!(r.mode, "delay");
}
