use codex_core::tool_args::{check_additional_permissions, check_normalized_permissions, PermissionStep};

#[test]
fn additional_permissions_need_the_feature() {
    assert_eq!(
        check_additional_permissions(false, true, "OnRequest", true, true).unwrap_err(),
        "additional permissions are disabled; enable `features.request_permission` before using `with_additional_permissions`"
    );
    assert_eq!(check_additional_permissions(false, true, "OnRequest", false, false).unwrap(), PermissionStep::NoPermissions);
}

#[test]
fn asking_needs_on_request_policy_and_a_profile() {
    assert_eq!(
        check_additional_permissions(true, false, "Never", true, true).unwrap_err(),
        "approval policy is Never; reject command — you cannot request additional permissions unless the approval policy is OnRequest"
    );
    assert_eq!(
        check_additional_permissions(true, true, "OnRequest", true, false).unwrap_err(),
        "missing `additional_permissions`; provide `file_system.read` and/or `file_system.write` when using `with_additional_permissions`"
    );
    assert_eq!(check_additional_permissions(true, true, "OnRequest", true, true).unwrap(), PermissionStep::Normalize);
    assert_eq!(
        check_additional_permissions(true, true, "OnRequest", false, true).unwrap_err(),
        "`additional_permissions` requires `sandbox_permissions` set to `with_additional_permissions`"
    );
    assert!(check_normalized_permissions(false).is_ok());
    assert_eq!(
        check_normalized_permissions(true).unwrap_err(),
        "`additional_permissions` must include at least one path in `file_system.read` or `file_system.write`"
    );
}
