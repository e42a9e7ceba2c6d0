use api_key_auth::authenticator::NonceBackend;
use api_key_auth::memory_store::MemoryNonceStore;
use api_key_auth::outcome::{Rejection, Verdict};
use api_key_auth::registry::ValidatorType;
use api_key_auth::request::RequestParts;
use api_key_auth::signature::sign;
use api_key_auth::startup::{
    admin_route_groups, apply_layers, initialize_admin_router, initialize_service_config, Layer,
    RouterKind, ServiceConfig, Services,
};

#[test]
fn every_service_stands_under_its_name() {
    let config = initialize_service_config();
    assert_eq!(config.service_map.len(), 12);
    assert_eq!(config.service_map.get("auth"), Some(&Services::SysAuthService));
    assert_eq!(config.service_map.get("authorization"), Some(&Services::SysAuthorizationService));
    assert_eq!(config.service_map.get("menu"), Some(&Services::SysMenuService));
    assert_eq!(config.service_map.get("user"), Some(&Services::SysUserService));
    assert_eq!(config.service_map.get("domain"), Some(&Services::SysDomainService));
    assert_eq!(config.service_map.get("role"), Some(&Services::SysRoleService));
    assert_eq!(config.service_map.get("endpoint"), Some(&Services::SysEndpointService));
    assert_eq!(config.service_map.get("access_key"), Some(&Services::SysAccessKeyService));
    assert_eq!(config.service_map.get("login_log"), Some(&Services::SysLoginLogService));
    assert_eq!(config.service_map.get("operation_log"), Some(&Services::SysOperationLogService));
    assert_eq!(config.service_map.get("organization"), Some(&Services::SysOrganizationService));
    assert_eq!(config.service_map.get("None"), Some(&Services::NoService));
    assert_eq!(config.service_map.get("none"), None);
}

#[test]
fn services_can_be_registered_and_found() {
    let mut config = ServiceConfig::new();
    assert_eq!(config.service("auth"), None);
    config.register("auth", Services::SysAuthService);
    config.register("mine", Services::SysRoleService);
    config.register("auth", Services::SysMenuService);
    assert_eq!(config.service("auth"), Some(Services::SysMenuService));
    assert_eq!(config.service("mine"), Some(Services::SysRoleService));
    assert_eq!(config.service("Auth"), None);
    assert_eq!(initialize_service_config().service("operation_log"), Some(Services::SysOperationLogService));
}

#[test]
fn layers_come_in_their_order() {
    let services = vec![Services::SysAuthService, Services::SysAuthorizationService];
    assert_eq!(
        apply_layers(&services, true, true, true, Some(ValidatorType::Complex)),
        vec![
            Layer::Service(Services::SysAuthService),
            Layer::Service(Services::SysAuthorizationService),
            Layer::Trace,
            Layer::RequestId,
            Layer::PolicyExtension,
            Layer::Policy,
            Layer::ApiKey(ValidatorType::Complex),
            Layer::SessionAuth,
        ]
    );
    assert_eq!(apply_layers(&vec![], false, false, false, None), vec![Layer::Trace, Layer::RequestId]);
}

#[test]
fn policy_layers_need_both_the_wish_and_the_enforcer() {
    let services = vec![Services::SysUserService];
    let plain = vec![Layer::Service(Services::SysUserService), Layer::Trace, Layer::RequestId];
    assert_eq!(apply_layers(&services, true, false, false, None), plain);
    assert_eq!(apply_layers(&services, false, true, false, None), plain);
    assert_eq!(
        apply_layers(&services, true, true, false, None),
        vec![
            Layer::Service(Services::SysUserService),
            Layer::Trace,
            Layer::RequestId,
            Layer::PolicyExtension,
            Layer::Policy
        ]
    );
}

#[test]
fn no_service_has_no_layer() {
    assert_eq!(
        apply_layers(&vec![Services::NoService], false, true, false, Some(ValidatorType::Simple)),
        vec![Layer::Trace, Layer::RequestId, Layer::ApiKey(ValidatorType::Simple)]
    );
    assert_eq!(
        apply_layers(
            &vec![Services::NoService, Services::SysMenuService, Services::NoService],
            false,
            false,
            true,
            None
        ),
        vec![Layer::Service(Services::SysMenuService), Layer::Trace, Layer::RequestId, Layer::SessionAuth]
    );
}

#[test]
fn route_groups_are_the_fifteen_of_the_application() {
    let groups = admin_route_groups();
    assert_eq!(groups.len(), 15);
    let routers: Vec<RouterKind> = groups.iter().map(|g| g.router).collect();
    assert_eq!(
        routers,
        vec![
            RouterKind::Authentication,
            RouterKind::Authorization,
            RouterKind::ProtectedAuthentication,
            RouterKind::Menu,
            RouterKind::ProtectedMenu,
            RouterKind::User,
            RouterKind::Domain,
            RouterKind::Role,
            RouterKind::Endpoint,
            RouterKind::AccessKey,
            RouterKind::LoginLog,
            RouterKind::OperationLog,
            RouterKind::Organization,
            RouterKind::SimpleApiKey,
            RouterKind::ComplexApiKey,
        ]
    );
    let flags: Vec<(bool, bool)> = groups.iter().map(|g| (g.need_casbin, g.need_auth)).collect();
    assert_eq!(
        flags,
        vec![
            (false, false),
            (false, false),
            (false, true),
            (false, false),
            (true, true),
            (true, true),
            (true, true),
            (true, true),
            (true, true),
            (true, true),
            (true, true),
            (true, true),
            (false, false),
            (false, false),
            (false, false),
        ]
    );
    assert_eq!(groups[1].services, vec![Services::SysAuthService, Services::SysAuthorizationService]);
    assert_eq!(groups[4].services, vec![Services::SysMenuService]);
    assert_eq!(groups[13].services, vec![Services::NoService]);
    assert_eq!(groups[13].api_validation, Some(ValidatorType::Simple));
    assert_eq!(groups[14].api_validation, Some(ValidatorType::Complex));
    assert!(groups[..13].iter().all(|g| g.api_validation.is_none()));
}

#[test]
fn layers_of_the_guarded_groups() {
    let groups = admin_route_groups();
    let simple = &groups[13];
    assert_eq!(
        apply_layers(&simple.services, simple.need_casbin, true, simple.need_auth, simple.api_validation),
        vec![Layer::Trace, Layer::RequestId, Layer::ApiKey(ValidatorType::Simple)]
    );
    let user = &groups[5];
    assert_eq!(
        apply_layers(&user.services, user.need_casbin, true, user.need_auth, user.api_validation),
        vec![
            Layer::Service(Services::SysUserService),
            Layer::Trace,
            Layer::RequestId,
            Layer::PolicyExtension,
            Layer::Policy,
            Layer::SessionAuth
        ]
    );
}

#[test]
fn application_starts_with_its_first_keys_and_paths() {
    let mut plan = initialize_admin_router(false, MemoryNonceStore::new());
    assert_eq!(plan.backend, NonceBackend::Memory);
    assert_eq!(plan.groups.len(), 15);
    let registry = &plan.authenticator.registry;
    assert!(registry.contains(ValidatorType::Simple, "test-api-key"));
    assert_eq!(
        registry.secret_of(ValidatorType::Complex, "test-access-key").map(|s| s.as_str()),
        Some("test-secret-key")
    );
    assert!(!registry.contains(ValidatorType::Complex, "test-api-key"));
    assert_eq!(
        plan.authenticator.routes.binding("/sandbox/simple-api-key"),
        Some(ValidatorType::Simple)
    );
    assert_eq!(
        plan.authenticator.routes.binding("/sandbox/complex-api-key"),
        Some(ValidatorType::Complex)
    );
    assert_eq!(plan.authenticator.routes.binding("/sandbox"), None);

    let mut simple = RequestParts::new();
    simple.push_header("x-api-key", "test-api-key");
    assert_eq!(
        plan.authenticator.authorize("/sandbox/simple-api-key", &simple, 1_700_000_000),
        Verdict::Allowed
    );
    let mut complex = RequestParts::new();
    complex.push_header("AccessKeyId", "test-access-key");
    complex.push_header("t", "1700000000");
    complex.push_header("n", "n-1");
    complex.push_header("sign", &sign("test-secret-key", "test-access-key", "1700000000", "n-1"));
    assert_eq!(
        plan.authenticator.authorize("/sandbox/complex-api-key", &complex, 1_700_000_000),
        Verdict::Allowed
    );
    assert_eq!(
        plan.authenticator.authorize("/sandbox/complex-api-key", &complex, 1_700_000_000),
        Verdict::Rejected(Rejection::ReplayDetected)
    );
}

#[test]
fn shared_cache_is_chosen_where_it_is_configured() {
    let plan = initialize_admin_router(true, MemoryNonceStore::new());
    assert_eq!(plan.backend, NonceBackend::SharedCache);
}
