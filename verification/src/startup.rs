//! What is put together once, when the application starts: the services by
//! name, the groups of routes with the layers that each of them gets, and
//! request authentication with its first keys and protected paths.
//!
//! Everything here is a plain value. Turning a group into a router and a
//! layer into middleware is the work of the program around this crate.

use vstd::hash_map::StringHashMap;
use vstd::prelude::*;
use vstd::string::*;

use crate::authenticator::{select_backend, ApiKeyAuthenticator, NonceBackend};
use crate::clock::DEFAULT_SKEW_SECS;
use crate::nonce::NonceStore;
use crate::registry::ValidatorType;
use crate::validator::Keys;

verus! {

/// The services that handlers can ask for.
#[derive(Clone, Copy, Debug, PartialEq, Eq, Structural)]
pub enum Services {
    SysAuthService,
    SysAuthorizationService,
    SysMenuService,
    SysUserService,
    SysDomainService,
    SysRoleService,
    SysEndpointService,
    SysAccessKeyService,
    SysLoginLogService,
    SysOperationLogService,
    SysOrganizationService,
    /// No service: a group of routes that needs none names this one.
    NoService,
}

/// The services of the application, each under its name.
pub struct ServiceConfig {
    pub service_map: StringHashMap<Services>,
}

impl ServiceConfig {
    /// A configuration that names no service.
    pub fn new() -> (config: ServiceConfig)
        ensures
            config.service_map@ == Map::<Seq<char>, Services>::empty(),
    {
        ServiceConfig { service_map: StringHashMap::new() }
    }

    /// Puts a service under a name, in place of the one that may stand
    /// there.
    pub fn register(&mut self, name: &str, service: Services)
        ensures
            final(self).service_map@ == old(self).service_map@.insert(name@, service),
    {
        self.service_map.insert(String::from_str(name), service);
    }

    /// The service that stands under a name, if one does.
    pub fn service(&self, name: &str) -> (found: Option<Services>)
        ensures
            found == if self.service_map@.contains_key(name@) {
                Some(self.service_map@[name@])
            } else {
                None
            },
    {
        match self.service_map.get(name) {
            Some(service) => Some(*service),
            None => None,
        }
    }
}

/// The names under which the services stand.
pub open spec fn service_names() -> Map<Seq<char>, Services> {
    Map::<Seq<char>, Services>::empty().insert("auth"@, Services::SysAuthService).insert(
        "authorization"@,
        Services::SysAuthorizationService,
    ).insert("menu"@, Services::SysMenuService).insert("user"@, Services::SysUserService).insert(
        "domain"@,
        Services::SysDomainService,
    ).insert("role"@, Services::SysRoleService).insert(
        "endpoint"@,
        Services::SysEndpointService,
    ).insert("access_key"@, Services::SysAccessKeyService).insert(
        "login_log"@,
        Services::SysLoginLogService,
    ).insert("operation_log"@, Services::SysOperationLogService).insert(
        "organization"@,
        Services::SysOrganizationService,
    ).insert("None"@, Services::NoService)
}

/// Puts every service under its name.
pub fn initialize_service_config() -> (config: ServiceConfig)
    ensures
        config.service_map@ == service_names(),
{
    let mut service_map: StringHashMap<Services> = StringHashMap::new();
    service_map.insert(String::from_str("auth"), Services::SysAuthService);
    service_map.insert(String::from_str("authorization"), Services::SysAuthorizationService);
    service_map.insert(String::from_str("menu"), Services::SysMenuService);
    service_map.insert(String::from_str("user"), Services::SysUserService);
    service_map.insert(String::from_str("domain"), Services::SysDomainService);
    service_map.insert(String::from_str("role"), Services::SysRoleService);
    service_map.insert(String::from_str("endpoint"), Services::SysEndpointService);
    service_map.insert(String::from_str("access_key"), Services::SysAccessKeyService);
    service_map.insert(String::from_str("login_log"), Services::SysLoginLogService);
    service_map.insert(String::from_str("operation_log"), Services::SysOperationLogService);
    service_map.insert(String::from_str("organization"), Services::SysOrganizationService);
    service_map.insert(String::from_str("None"), Services::NoService);
    ServiceConfig { service_map }
}

/// One layer around the handlers of a group of routes. A layer that comes
/// later in the list lies further out, so a request meets it earlier.
#[derive(Clone, Copy, Debug, PartialEq, Eq, Structural)]
pub enum Layer {
    /// Hands the service to the handlers.
    Service(Services),
    /// Opens a tracing span for the request.
    Trace,
    /// Gives the request its identifier.
    RequestId,
    /// Hands the policy enforcer to the handlers.
    PolicyExtension,
    /// Enforces the access policy.
    Policy,
    /// Authenticates the request by its API key, under this scheme.
    ApiKey(ValidatorType),
    /// Authenticates the request by its session token.
    SessionAuth,
}

/// The routers that make up the application.
#[derive(Clone, Copy, Debug, PartialEq, Eq, Structural)]
pub enum RouterKind {
    Authentication,
    Authorization,
    ProtectedAuthentication,
    Menu,
    ProtectedMenu,
    User,
    Domain,
    Role,
    Endpoint,
    AccessKey,
    LoginLog,
    OperationLog,
    Organization,
    SimpleApiKey,
    ComplexApiKey,
}

/// One router with what is put around it.
#[derive(Debug)]
pub struct RouteGroup {
    pub router: RouterKind,
    pub services: Vec<Services>,
    pub need_casbin: bool,
    pub need_auth: bool,
    pub api_validation: Option<ValidatorType>,
}

/// The layers that hand out the services of a group, in the order of the
/// services; `NoService` has no layer.
pub open spec fn service_layers(services: Seq<Services>) -> Seq<Layer>
    decreases services.len(),
{
    if services.len() == 0 {
        seq![]
    } else {
        let before = service_layers(services.drop_last());
        if services.last() == Services::NoService {
            before
        } else {
            before.push(Layer::Service(services.last()))
        }
    }
}

/// The layers of a group, innermost first: its services; tracing; the
/// request identifier; the access policy, where the group needs it and an
/// enforcer is there; API-key authentication, where the group has a scheme;
/// session authentication, where the group needs it.
pub open spec fn layer_plan(
    services: Seq<Services>,
    need_casbin: bool,
    has_casbin: bool,
    need_auth: bool,
    api_validation: Option<ValidatorType>,
) -> Seq<Layer> {
    service_layers(services) + seq![Layer::Trace, Layer::RequestId] + (if need_casbin
        && has_casbin {
        seq![Layer::PolicyExtension, Layer::Policy]
    } else {
        seq![]
    }) + (match api_validation {
        Some(scheme) => seq![Layer::ApiKey(scheme)],
        None => seq![],
    }) + (if need_auth {
        seq![Layer::SessionAuth]
    } else {
        seq![]
    })
}

/// Lists the layers of a group, innermost first.
pub fn apply_layers(
    services: &Vec<Services>,
    need_casbin: bool,
    has_casbin: bool,
    need_auth: bool,
    api_validation: Option<ValidatorType>,
) -> (layers: Vec<Layer>)
    ensures
        layers@ == layer_plan(services@, need_casbin, has_casbin, need_auth, api_validation),
{
    let mut layers: Vec<Layer> = Vec::new();
    let mut i: usize = 0;
    while i < services.len()
        invariant
            i <= services@.len(),
            layers@ == service_layers(services@.subrange(0, i as int)),
        decreases services@.len() - i,
    {
        let service = services[i];
        proof {
            let longer = services@.subrange(0, i + 1);
            assert(longer.drop_last() =~= services@.subrange(0, i as int));
            assert(longer.last() == service);
        }
        match service {
            Services::NoService => {},
            _ => {
                layers.push(Layer::Service(service));
            },
        }
        i = i + 1;
    }
    assert(services@.subrange(0, i as int) =~= services@);
    layers.push(Layer::Trace);
    layers.push(Layer::RequestId);
    if need_casbin && has_casbin {
        layers.push(Layer::PolicyExtension);
        layers.push(Layer::Policy);
    }
    match api_validation {
        Some(scheme) => {
            layers.push(Layer::ApiKey(scheme));
        },
        None => {},
    }
    if need_auth {
        layers.push(Layer::SessionAuth);
    }
    assert(layers@ =~= layer_plan(services@, need_casbin, has_casbin, need_auth, api_validation));
    layers
}

/// What the table of groups says of its `i`-th group: the router, its
/// services, whether it needs the access policy, whether it needs a session,
/// and the API-key scheme that guards it.
pub open spec fn admin_group(i: int) -> (RouterKind, Seq<Services>, bool, bool, Option<
    ValidatorType,
>) {
    if i == 0 {
        (RouterKind::Authentication, seq![Services::SysAuthService], false, false, None)
    } else if i == 1 {
        (
            RouterKind::Authorization,
            seq![Services::SysAuthService, Services::SysAuthorizationService],
            false,
            false,
            None,
        )
    } else if i == 2 {
        (RouterKind::ProtectedAuthentication, seq![Services::SysAuthService], false, true, None)
    } else if i == 3 {
        (RouterKind::Menu, seq![Services::SysMenuService], false, false, None)
    } else if i == 4 {
        (RouterKind::ProtectedMenu, seq![Services::SysMenuService], true, true, None)
    } else if i == 5 {
        (RouterKind::User, seq![Services::SysUserService], true, true, None)
    } else if i == 6 {
        (RouterKind::Domain, seq![Services::SysDomainService], true, true, None)
    } else if i == 7 {
        (RouterKind::Role, seq![Services::SysRoleService], true, true, None)
    } else if i == 8 {
        (RouterKind::Endpoint, seq![Services::SysEndpointService], true, true, None)
    } else if i == 9 {
        (RouterKind::AccessKey, seq![Services::SysAccessKeyService], true, true, None)
    } else if i == 10 {
        (RouterKind::LoginLog, seq![Services::SysLoginLogService], true, true, None)
    } else if i == 11 {
        (RouterKind::OperationLog, seq![Services::SysOperationLogService], true, true, None)
    } else if i == 12 {
        (RouterKind::Organization, seq![Services::SysOrganizationService], false, false, None)
    } else if i == 13 {
        (
            RouterKind::SimpleApiKey,
            seq![Services::NoService],
            false,
            false,
            Some(ValidatorType::Simple),
        )
    } else {
        (
            RouterKind::ComplexApiKey,
            seq![Services::NoService],
            false,
            false,
            Some(ValidatorType::Complex),
        )
    }
}

impl RouteGroup {
    /// The group as the table has it.
    pub open spec fn entry(self) -> (RouterKind, Seq<Services>, bool, bool, Option<ValidatorType>) {
        (self.router, self.services@, self.need_casbin, self.need_auth, self.api_validation)
    }

    fn with_service(
        router: RouterKind,
        service: Services,
        need_casbin: bool,
        need_auth: bool,
        api_validation: Option<ValidatorType>,
    ) -> (group: RouteGroup)
        ensures
            group.entry() == (router, seq![service], need_casbin, need_auth, api_validation),
    {
        let mut services: Vec<Services> = Vec::new();
        services.push(service);
        assert(services@ =~= seq![service]);
        RouteGroup { router, services, need_casbin, need_auth, api_validation }
    }
}

/// The path that the simple scheme guards from the start.
pub open spec fn simple_path() -> Seq<char> {
    "/sandbox/simple-api-key"@
}

/// The path that the complex scheme guards from the start.
pub open spec fn complex_path() -> Seq<char> {
    "/sandbox/complex-api-key"@
}

/// The keys that are registered from the start.
pub open spec fn first_keys() -> Keys {
    Keys::empty().insert((ValidatorType::Simple, "test-api-key"@), None).insert(
        (ValidatorType::Complex, "test-access-key"@),
        Some("test-secret-key"@),
    )
}

/// The paths that are protected from the start.
pub open spec fn first_routes() -> Map<Seq<char>, ValidatorType> {
    Map::<Seq<char>, ValidatorType>::empty().insert(simple_path(), ValidatorType::Simple).insert(
        complex_path(),
        ValidatorType::Complex,
    )
}

/// The application, put together and not yet served.
pub struct AdminRouterPlan<S: NonceStore> {
    /// The groups of routes, in the order in which they are merged.
    pub groups: Vec<RouteGroup>,
    /// Where the nonces are kept.
    pub backend: NonceBackend,
    /// Request authentication, with its first keys and protected paths.
    pub authenticator: ApiKeyAuthenticator<S>,
}

/// Lists the groups of routes of the application.
pub fn admin_route_groups() -> (groups: Vec<RouteGroup>)
    ensures
        groups@.len() == 15,
        forall|i: int| 0 <= i < 15 ==> (#[trigger] groups@[i]).entry() == admin_group(i),
{
    let mut groups: Vec<RouteGroup> = Vec::new();
    groups.push(
        RouteGroup::with_service(
            RouterKind::Authentication,
            Services::SysAuthService,
            false,
            false,
            None,
        ),
    );
    let mut both: Vec<Services> = Vec::new();
    both.push(Services::SysAuthService);
    both.push(Services::SysAuthorizationService);
    assert(both@ =~= seq![Services::SysAuthService, Services::SysAuthorizationService]);
    groups.push(
        RouteGroup {
            router: RouterKind::Authorization,
            services: both,
            need_casbin: false,
            need_auth: false,
            api_validation: None,
        },
    );
    groups.push(
        RouteGroup::with_service(
            RouterKind::ProtectedAuthentication,
            Services::SysAuthService,
            false,
            true,
            None,
        ),
    );
    groups.push(
        RouteGroup::with_service(RouterKind::Menu, Services::SysMenuService, false, false, None),
    );
    groups.push(
        RouteGroup::with_service(
            RouterKind::ProtectedMenu,
            Services::SysMenuService,
            true,
            true,
            None,
        ),
    );
    groups.push(
        RouteGroup::with_service(RouterKind::User, Services::SysUserService, true, true, None),
    );
    groups.push(
        RouteGroup::with_service(RouterKind::Domain, Services::SysDomainService, true, true, None),
    );
    groups.push(
        RouteGroup::with_service(RouterKind::Role, Services::SysRoleService, true, true, None),
    );
    groups.push(
        RouteGroup::with_service(
            RouterKind::Endpoint,
            Services::SysEndpointService,
            true,
            true,
            None,
        ),
    );
    groups.push(
        RouteGroup::with_service(
            RouterKind::AccessKey,
            Services::SysAccessKeyService,
            true,
            true,
            None,
        ),
    );
    groups.push(
        RouteGroup::with_service(
            RouterKind::LoginLog,
            Services::SysLoginLogService,
            true,
            true,
            None,
        ),
    );
    groups.push(
        RouteGroup::with_service(
            RouterKind::OperationLog,
            Services::SysOperationLogService,
            true,
            true,
            None,
        ),
    );
    groups.push(
        RouteGroup::with_service(
            RouterKind::Organization,
            Services::SysOrganizationService,
            false,
            false,
            None,
        ),
    );
    groups.push(
        RouteGroup::with_service(
            RouterKind::SimpleApiKey,
            Services::NoService,
            false,
            false,
            Some(ValidatorType::Simple),
        ),
    );
    groups.push(
        RouteGroup::with_service(
            RouterKind::ComplexApiKey,
            Services::NoService,
            false,
            false,
            Some(ValidatorType::Complex),
        ),
    );
    groups
}

/// Puts the application together: chooses where the nonces are kept,
/// registers the first keys, protects the first paths and lists the groups
/// of routes. The store that is handed in is the one that the choice of
/// backend calls for; it is used as it is.
pub fn initialize_admin_router<S: NonceStore>(shared_cache_configured: bool, store: S) -> (plan:
    AdminRouterPlan<S>)
    ensures
        plan.backend == if shared_cache_configured {
            NonceBackend::SharedCache
        } else {
            NonceBackend::Memory
        },
        plan.groups@.len() == 15,
        forall|i: int| 0 <= i < 15 ==> (#[trigger] plan.groups@[i]).entry() == admin_group(i),
        plan.authenticator.registry@ == first_keys(),
        plan.authenticator.routes@ == first_routes(),
        plan.authenticator.simple.is_default(),
        plan.authenticator.complex.is_default(),
        plan.authenticator.policy.skew() == DEFAULT_SKEW_SECS,
        plan.authenticator.policy.ttl() == DEFAULT_SKEW_SECS,
        plan.authenticator.store == store,
{
    let backend = select_backend(shared_cache_configured);
    let mut authenticator = ApiKeyAuthenticator::new(store);
    authenticator.add_key(ValidatorType::Simple, "test-api-key", None);
    authenticator.add_key(ValidatorType::Complex, "test-access-key", Some("test-secret-key"));
    authenticator.protect_route("/sandbox/simple-api-key", ValidatorType::Simple);
    authenticator.protect_route("/sandbox/complex-api-key", ValidatorType::Complex);
    AdminRouterPlan { groups: admin_route_groups(), backend, authenticator }
}

} // verus!
