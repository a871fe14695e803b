//! Governance: role-based access control and audit logging.

use vstd::prelude::*;

use crate::activation::{clone_opt, opt_view};
use crate::assoc::{
    assoc_distinct, assoc_get, assoc_index, lemma_assoc_index,
    lemma_assoc_push, lemma_assoc_update,
};
use crate::clock::unix_timestamp;
use crate::error::KitResult;
use crate::seqs::{keep, lemma_keep_push, lemma_keep_step};
use crate::string_map::StringMap;
use crate::text::{int_decimal, push_decimal_i64, str_eq, string_eq};

verus! {

/// Role-based access control role.
#[derive(Debug, PartialEq, Eq)]
pub enum Role {
    Admin,
    Manager,
    Analyst,
    Viewer,
    Custom(String),
}

/// Abstract value of a role.
pub ghost enum RoleView {
    Admin,
    Manager,
    Analyst,
    Viewer,
    Custom(Seq<char>),
}

impl View for Role {
    type V = RoleView;

    open spec fn view(&self) -> RoleView {
        match self {
            Role::Admin => RoleView::Admin,
            Role::Manager => RoleView::Manager,
            Role::Analyst => RoleView::Analyst,
            Role::Viewer => RoleView::Viewer,
            Role::Custom(n) => RoleView::Custom(n@),
        }
    }
}

impl Clone for Role {
    fn clone(&self) -> (r: Self)
        ensures
            r == *self,
    {
        match self {
            Role::Admin => Role::Admin,
            Role::Manager => Role::Manager,
            Role::Analyst => Role::Analyst,
            Role::Viewer => Role::Viewer,
            Role::Custom(n) => Role::Custom(n.clone()),
        }
    }
}

/// The name of a role.
pub open spec fn role_name(r: RoleView) -> Seq<char> {
    match r {
        RoleView::Admin => "admin"@,
        RoleView::Manager => "manager"@,
        RoleView::Analyst => "analyst"@,
        RoleView::Viewer => "viewer"@,
        RoleView::Custom(n) => n,
    }
}

impl Role {
    pub fn as_str(&self) -> (s: &str)
        ensures
            s@ == role_name(self@),
    {
        match self {
            Role::Admin => "admin",
            Role::Manager => "manager",
            Role::Analyst => "analyst",
            Role::Viewer => "viewer",
            Role::Custom(name) => name.as_str(),
        }
    }

    /// Equality of roles by their abstract value.
    pub fn same_as(&self, other: &Role) -> (b: bool)
        ensures
            b == (self@ == other@),
    {
        match (self, other) {
            (Role::Admin, Role::Admin) => true,
            (Role::Manager, Role::Manager) => true,
            (Role::Analyst, Role::Analyst) => true,
            (Role::Viewer, Role::Viewer) => true,
            (Role::Custom(a), Role::Custom(b)) => string_eq(a, b),
            _ => false,
        }
    }
}

/// Action that can be performed.
#[derive(Clone, Copy, Debug, PartialEq, Eq, Hash, Structural)]
pub enum Action {
    View,
    Create,
    Edit,
    Delete,
    Export,
    Activate,
    Configure,
    Admin,
}

/// The name of an action.
pub open spec fn action_name(a: Action) -> Seq<char> {
    match a {
        Action::View => "view"@,
        Action::Create => "create"@,
        Action::Edit => "edit"@,
        Action::Delete => "delete"@,
        Action::Export => "export"@,
        Action::Activate => "activate"@,
        Action::Configure => "configure"@,
        Action::Admin => "admin"@,
    }
}

impl Action {
    pub fn as_str(&self) -> (s: &'static str)
        ensures
            s@ == action_name(*self),
    {
        match self {
            Action::View => "view",
            Action::Create => "create",
            Action::Edit => "edit",
            Action::Delete => "delete",
            Action::Export => "export",
            Action::Activate => "activate",
            Action::Configure => "configure",
            Action::Admin => "admin",
        }
    }
}

/// Resource type.
#[derive(Debug, PartialEq, Eq)]
pub enum Resource {
    Segment,
    Audience,
    Dashboard,
    Settings,
    AuditLog,
    Integration,
    Custom(String),
}

/// Abstract value of a resource.
pub ghost enum ResourceView {
    Segment,
    Audience,
    Dashboard,
    Settings,
    AuditLog,
    Integration,
    Custom(Seq<char>),
}

impl View for Resource {
    type V = ResourceView;

    open spec fn view(&self) -> ResourceView {
        match self {
            Resource::Segment => ResourceView::Segment,
            Resource::Audience => ResourceView::Audience,
            Resource::Dashboard => ResourceView::Dashboard,
            Resource::Settings => ResourceView::Settings,
            Resource::AuditLog => ResourceView::AuditLog,
            Resource::Integration => ResourceView::Integration,
            Resource::Custom(n) => ResourceView::Custom(n@),
        }
    }
}

impl Clone for Resource {
    fn clone(&self) -> (r: Self)
        ensures
            r == *self,
    {
        match self {
            Resource::Segment => Resource::Segment,
            Resource::Audience => Resource::Audience,
            Resource::Dashboard => Resource::Dashboard,
            Resource::Settings => Resource::Settings,
            Resource::AuditLog => Resource::AuditLog,
            Resource::Integration => Resource::Integration,
            Resource::Custom(n) => Resource::Custom(n.clone()),
        }
    }
}

/// The name of a resource.
pub open spec fn resource_name(r: ResourceView) -> Seq<char> {
    match r {
        ResourceView::Segment => "segment"@,
        ResourceView::Audience => "audience"@,
        ResourceView::Dashboard => "dashboard"@,
        ResourceView::Settings => "settings"@,
        ResourceView::AuditLog => "audit_log"@,
        ResourceView::Integration => "integration"@,
        ResourceView::Custom(n) => n,
    }
}

impl Resource {
    pub fn as_str(&self) -> (s: &str)
        ensures
            s@ == resource_name(self@),
    {
        match self {
            Resource::Segment => "segment",
            Resource::Audience => "audience",
            Resource::Dashboard => "dashboard",
            Resource::Settings => "settings",
            Resource::AuditLog => "audit_log",
            Resource::Integration => "integration",
            Resource::Custom(name) => name.as_str(),
        }
    }

    /// Equality of resources by their abstract value.
    pub fn same_as(&self, other: &Resource) -> (b: bool)
        ensures
            b == (self@ == other@),
    {
        match (self, other) {
            (Resource::Segment, Resource::Segment) => true,
            (Resource::Audience, Resource::Audience) => true,
            (Resource::Dashboard, Resource::Dashboard) => true,
            (Resource::Settings, Resource::Settings) => true,
            (Resource::AuditLog, Resource::AuditLog) => true,
            (Resource::Integration, Resource::Integration) => true,
            (Resource::Custom(a), Resource::Custom(b)) => string_eq(a, b),
            _ => false,
        }
    }
}

/// Permission definition.
#[derive(Debug, PartialEq, Eq)]
pub struct Permission {
    pub role: Role,
    pub action: Action,
    pub resource: Resource,
    pub allowed: bool,
}

impl Permission {
    pub fn new(role: Role, action: Action, resource: Resource, allowed: bool) -> (p: Self)
        ensures
            p == (Permission { role, action, resource, allowed }),
    {
        Permission { role, action, resource, allowed }
    }
}

/// User identity.
#[derive(Debug, PartialEq, Eq)]
pub struct User {
    pub user_id: String,
    pub email: String,
    pub role: Role,
    pub active: bool,
    pub created_at: i64,
    pub last_login: Option<i64>,
}

/// Abstract value of a user.
pub ghost struct UserView {
    pub user_id: Seq<char>,
    pub email: Seq<char>,
    pub role: RoleView,
    pub active: bool,
    pub created_at: i64,
    pub last_login: Option<i64>,
}

impl View for User {
    type V = UserView;

    open spec fn view(&self) -> UserView {
        UserView {
            user_id: self.user_id@,
            email: self.email@,
            role: self.role@,
            active: self.active,
            created_at: self.created_at,
            last_login: self.last_login,
        }
    }
}

impl Clone for User {
    fn clone(&self) -> (r: Self)
        ensures
            r == *self,
    {
        User {
            user_id: self.user_id.clone(),
            email: self.email.clone(),
            role: self.role.clone(),
            active: self.active,
            created_at: self.created_at,
            last_login: self.last_login,
        }
    }
}

impl User {
    /// An active user created now, never logged in.
    pub fn new(user_id: String, email: String, role: Role) -> (u: Self)
        ensures
            u.user_id == user_id,
            u.email == email,
            u.role == role,
            u.active,
            u.last_login.is_none(),
    {
        let now = unix_timestamp();
        User { user_id, email, role, active: true, created_at: now, last_login: None }
    }
}

/// Audit event.
pub struct AuditEvent {
    pub event_id: String,
    pub timestamp: i64,
    pub user_id: String,
    pub action: String,
    pub resource: String,
    pub resource_id: String,
    pub status: String,
    pub details: StringMap,
}

/// Abstract value of an audit event.
pub ghost struct AuditEventView {
    pub event_id: Seq<char>,
    pub timestamp: i64,
    pub user_id: Seq<char>,
    pub action: Seq<char>,
    pub resource: Seq<char>,
    pub resource_id: Seq<char>,
    pub status: Seq<char>,
    pub details: Map<Seq<char>, Seq<char>>,
}

impl View for AuditEvent {
    type V = AuditEventView;

    open spec fn view(&self) -> AuditEventView {
        AuditEventView {
            event_id: self.event_id@,
            timestamp: self.timestamp,
            user_id: self.user_id@,
            action: self.action@,
            resource: self.resource@,
            resource_id: self.resource_id@,
            status: self.status@,
            details: self.details@,
        }
    }
}

impl Clone for AuditEvent {
    fn clone(&self) -> (r: Self)
        ensures
            r@ == self@,
    {
        AuditEvent {
            event_id: self.event_id.clone(),
            timestamp: self.timestamp,
            user_id: self.user_id.clone(),
            action: self.action.clone(),
            resource: self.resource.clone(),
            resource_id: self.resource_id.clone(),
            status: self.status.clone(),
            details: self.details.clone_map(),
        }
    }
}

impl AuditEvent {
    /// A pending event stamped with the current time; its id is
    /// `evt_<timestamp>_<user_id>`.
    pub fn new(user_id: String, action: String, resource: String, resource_id: String) -> (e: Self)
        ensures
            e.event_id@ == "evt_"@ + int_decimal(e.timestamp as int) + "_"@ + user_id@,
            e.user_id == user_id,
            e.action == action,
            e.resource == resource,
            e.resource_id == resource_id,
            e.status@ == "pending"@,
            e.details@ == Map::<Seq<char>, Seq<char>>::empty(),
    {
        let now = unix_timestamp();
        let mut event_id = String::from_str("evt_");
        push_decimal_i64(&mut event_id, now);
        event_id.append("_");
        event_id.append(user_id.as_str());
        AuditEvent {
            event_id,
            timestamp: now,
            user_id,
            action,
            resource,
            resource_id,
            status: String::from_str("pending"),
            details: StringMap::new(),
        }
    }

    /// The event marked `success`.
    pub fn success(self) -> (e: Self)
        ensures
            e@ == (AuditEventView { status: "success"@, ..self@ }),
    {
        let mut e = self;
        e.status = String::from_str("success");
        e
    }

    /// The event marked `denied`.
    pub fn denied(self) -> (e: Self)
        ensures
            e@ == (AuditEventView { status: "denied"@, ..self@ }),
    {
        let mut e = self;
        e.status = String::from_str("denied");
        e
    }

    /// The event marked `failure`, with the reason under detail `reason`.
    pub fn failure(self, reason: String) -> (e: Self)
        ensures
            e@ == (AuditEventView {
                status: "failure"@,
                details: self@.details.insert("reason"@, reason@),
                ..self@
            }),
    {
        let mut e = self;
        e.status = String::from_str("failure");
        e.details.insert(String::from_str("reason"), reason);
        e
    }

    /// The event with detail `key` set to `value`.
    pub fn with_detail(self, key: String, value: String) -> (e: Self)
        ensures
            e@ == (AuditEventView { details: self@.details.insert(key@, value@), ..self@ }),
    {
        let mut e = self;
        e.details.insert(key, value);
        e
    }
}

/// Views of a sequence of audit events.
pub open spec fn event_views(s: Seq<AuditEvent>) -> Seq<AuditEventView> {
    s.map_values(|e: AuditEvent| e@)
}

/// Events of user `u`.
pub open spec fn by_user(u: Seq<char>) -> spec_fn(AuditEventView) -> bool {
    |e: AuditEventView| e.user_id == u
}

/// Events on resource `r` with id `id`.
pub open spec fn on_resource(r: Seq<char>, id: Seq<char>) -> spec_fn(AuditEventView) -> bool {
    |e: AuditEventView| e.resource == r && e.resource_id == id
}

/// Events whose status is `denied`.
pub open spec fn is_denied() -> spec_fn(AuditEventView) -> bool {
    |e: AuditEventView| e.status == "denied"@
}

/// Which audit events a query selects.
enum EventSelector<'a> {
    User(&'a str),
    Resource(&'a str, &'a str),
    Denied,
}

impl<'a> EventSelector<'a> {
    spec fn spec_pred(&self) -> spec_fn(AuditEventView) -> bool {
        match self {
            EventSelector::User(u) => by_user(u@),
            EventSelector::Resource(r, id) => on_resource(r@, id@),
            EventSelector::Denied => is_denied(),
        }
    }

    fn matches(&self, e: &AuditEvent) -> (b: bool)
        ensures
            b == (self.spec_pred())(e@),
    {
        match self {
            EventSelector::User(u) => str_eq(e.user_id.as_str(), u),
            EventSelector::Resource(r, id) => str_eq(e.resource.as_str(), r) && str_eq(
                e.resource_id.as_str(),
                id,
            ),
            EventSelector::Denied => str_eq(e.status.as_str(), "denied"),
        }
    }
}

/// Audit log: events in the order they were recorded.
pub struct AuditLog {
    events: Vec<AuditEvent>,
}

impl AuditLog {
    /// The recorded events, oldest first.
    pub closed spec fn entries(&self) -> Seq<AuditEventView> {
        event_views(self.events@)
    }

    pub fn new() -> (l: Self)
        ensures
            l.entries() == Seq::<AuditEventView>::empty(),
    {
        let l = AuditLog { events: Vec::new() };
        assert(l.entries() =~= Seq::<AuditEventView>::empty());
        l
    }

    /// Appends an event.
    pub fn record(&mut self, event: AuditEvent) -> (r: KitResult<()>)
        ensures
            r is Ok,
            final(self).entries() == old(self).entries().push(event@),
    {
        let ghost ev = event@;
        self.events.push(event);
        assert(self.entries() =~= old(self).entries().push(ev));
        Ok(())
    }

    /// All events, oldest first.
    pub fn get_events(&self) -> (s: &[AuditEvent])
        ensures
            event_views(s@) == self.entries(),
    {
        self.events.as_slice()
    }

    fn select(&self, sel: &EventSelector) -> (v: Vec<AuditEvent>)
        ensures
            event_views(v@) == keep(self.entries(), sel.spec_pred()),
    {
        let ghost s = self.entries();
        let ghost f = sel.spec_pred();
        let mut v: Vec<AuditEvent> = Vec::new();
        let n = self.events.len();
        let mut i: usize = 0;
        while i < n
            invariant
                n == self.events@.len(),
                s == self.entries(),
                f == sel.spec_pred(),
                i <= n,
                event_views(v@) == keep(s.take(i as int), f),
            decreases n - i,
        {
            proof {
                lemma_keep_step(s, f, i as int);
            }
            let e = &self.events[i];
            if sel.matches(e) {
                let ghost prev = v@;
                v.push(e.clone());
                assert(event_views(v@) =~= event_views(prev).push(s[i as int]));
            }
            i = i + 1;
        }
        assert(s.take(n as int) =~= s);
        v
    }

    /// Events of one user, oldest first.
    pub fn get_user_events(&self, user_id: &str) -> (v: Vec<AuditEvent>)
        ensures
            event_views(v@) == keep(self.entries(), by_user(user_id@)),
    {
        self.select(&EventSelector::User(user_id))
    }

    /// Events on one resource, oldest first.
    pub fn get_resource_events(&self, resource: &str, resource_id: &str) -> (v: Vec<AuditEvent>)
        ensures
            event_views(v@) == keep(self.entries(), on_resource(resource@, resource_id@)),
    {
        self.select(&EventSelector::Resource(resource, resource_id))
    }

    /// Number of recorded events.
    pub fn event_count(&self) -> (n: usize)
        ensures
            n == self.entries().len(),
    {
        self.events.len()
    }

    /// Events whose status is `denied`, oldest first.
    pub fn get_denied_actions(&self) -> (v: Vec<AuditEvent>)
        ensures
            event_views(v@) == keep(self.entries(), is_denied()),
    {
        self.select(&EventSelector::Denied)
    }
}

impl Default for AuditLog {
    fn default() -> (l: Self)
        ensures
            l.entries() == Seq::<AuditEventView>::empty(),
    {
        AuditLog::new()
    }
}

/// A permission key: role, action and resource.
pub type PermissionKey = (RoleView, Action, ResourceView);

/// True for the six built-in resources.
pub open spec fn is_builtin_resource(r: ResourceView) -> bool {
    !(r is Custom)
}

/// The permissions a new manager grants.
pub open spec fn default_allows(r: RoleView, a: Action, res: ResourceView) -> bool {
    match r {
        RoleView::Admin => is_builtin_resource(res),
        RoleView::Manager => (a == Action::View && res == ResourceView::Segment) || (a
            == Action::Create && res == ResourceView::Segment) || (a == Action::Edit && res
            == ResourceView::Segment) || (a == Action::Export && res == ResourceView::Audience) || (a
            == Action::Activate && res == ResourceView::Audience) || (a == Action::View && res
            == ResourceView::Dashboard) || (a == Action::View && res == ResourceView::AuditLog),
        RoleView::Analyst => (a == Action::View && res == ResourceView::Segment) || (a
            == Action::View && res == ResourceView::Dashboard) || (a == Action::Export && res
            == ResourceView::Audience) || (a == Action::Create && res == ResourceView::Audience),
        RoleView::Viewer => (a == Action::View && res == ResourceView::Segment) || (a
            == Action::View && res == ResourceView::Dashboard) || (a == Action::View && res
            == ResourceView::AuditLog),
        RoleView::Custom(_) => false,
    }
}

fn default_permission(role: &Role, action: &Action, resource: &Resource) -> (b: bool)
    ensures
        b == default_allows(role@, *action, resource@),
{
    let a = *action;
    match role {
        Role::Admin => match resource {
            Resource::Custom(_) => false,
            _ => true,
        },
        Role::Manager => match resource {
            Resource::Segment => a == Action::View || a == Action::Create || a == Action::Edit,
            Resource::Audience => a == Action::Export || a == Action::Activate,
            Resource::Dashboard => a == Action::View,
            Resource::AuditLog => a == Action::View,
            _ => false,
        },
        Role::Analyst => match resource {
            Resource::Segment => a == Action::View,
            Resource::Dashboard => a == Action::View,
            Resource::Audience => a == Action::Export || a == Action::Create,
            _ => false,
        },
        Role::Viewer => match resource {
            Resource::Segment => a == Action::View,
            Resource::Dashboard => a == Action::View,
            Resource::AuditLog => a == Action::View,
            _ => false,
        },
        Role::Custom(_) => false,
    }
}

/// Views of the explicit permission entries.
pub open spec fn grant_views(s: Seq<(Role, Action, Resource, bool)>) -> Seq<(PermissionKey, bool)> {
    s.map_values(|e: (Role, Action, Resource, bool)| ((e.0@, e.1, e.2@), e.3))
}

/// Views of the registered users, keyed by user id.
pub open spec fn user_entries(s: Seq<User>) -> Seq<(Seq<char>, UserView)> {
    s.map_values(|u: User| (u.user_id@, u@))
}

/// RBAC policy manager: permissions per (role, action, resource) and
/// registered users.
pub struct RBACManager {
    grants: Vec<(Role, Action, Resource, bool)>,
    users: Vec<User>,
}

impl RBACManager {
    /// Explicitly granted or revoked permissions (first entry for a key in force).
    pub closed spec fn grant_table(&self) -> Seq<(PermissionKey, bool)> {
        grant_views(self.grants@)
    }

    /// Registered users keyed by id.
    pub closed spec fn user_table(&self) -> Seq<(Seq<char>, UserView)> {
        user_entries(self.users@)
    }

    #[verifier::type_invariant]
    spec fn inv(self) -> bool {
        assoc_distinct(user_entries(self.users@))
    }

    /// Whether `role` may perform `action` on `resource`.
    pub open spec fn allows(&self, role: RoleView, action: Action, resource: ResourceView) -> bool {
        match assoc_get(self.grant_table(), (role, action, resource)) {
            Some(b) => b,
            None => default_allows(role, action, resource),
        }
    }

    /// The registered user with id `user_id`.
    pub open spec fn user(&self, user_id: Seq<char>) -> Option<UserView> {
        assoc_get(self.user_table(), user_id)
    }

    /// Whether user `user_id` may perform `action` on `resource`: the user is
    /// registered, active, and the user's role allows it.
    pub open spec fn user_may(&self, user_id: Seq<char>, action: Action, resource: ResourceView) -> bool {
        match self.user(user_id) {
            Some(u) => u.active && self.allows(u.role, action, resource),
            None => false,
        }
    }

    /// A manager with the default permissions and no users.
    pub fn new() -> (m: Self)
        ensures
            forall|r: RoleView, a: Action, res: ResourceView| #[trigger] m.allows(r, a, res) == default_allows(r, a, res),
            forall|u: Seq<char>| #[trigger] m.user(u).is_none(),
            m.user_table() == Seq::<(Seq<char>, UserView)>::empty(),
    {
        let m = RBACManager { grants: Vec::new(), users: Vec::new() };
        assert(m.grant_table() =~= Seq::<(PermissionKey, bool)>::empty());
        assert(m.user_table() =~= Seq::<(Seq<char>, UserView)>::empty());
        m
    }

    fn find_user(&self, user_id: &str) -> (r: Option<usize>)
        ensures
            match r {
                Some(i) => assoc_index(self.user_table(), user_id@) == Some(i as int) && i < self.users@.len(),
                None => assoc_index(self.user_table(), user_id@).is_none(),
            },
    {
        find_in(&self.users, user_id)
    }

    /// Registers a user, replacing any user with the same id.
    pub fn register_user(&mut self, user: User) -> (r: KitResult<()>)
        ensures
            r is Ok,
            registers(*old(self), *final(self), user@),
    {
        proof {
            use_type_invariant(&*self);
        }
        let ghost old_table = self.user_table();
        let ghost entry = (user.user_id@, user@);
        let mut users: Vec<User> = Vec::new();
        std::mem::swap(&mut users, &mut self.users);
        match find_in(&users, user.user_id.as_str()) {
            Some(i) => {
                users.set(i, user);
                proof {
                    assert(user_entries(users@) =~= old_table.update(i as int, entry));
                    assert forall|u: Seq<char>| #[trigger] assoc_get(user_entries(users@), u) == if u == entry.0 {
                        Some(entry.1)
                    } else {
                        assoc_get(old_table, u)
                    } by {
                        lemma_assoc_update(old_table, i as int, entry, u);
                    }
                    assert forall|a: int, b: int|
                        0 <= a < b < user_entries(users@).len() implies #[trigger] user_entries(users@)[a].0
                        != #[trigger] user_entries(users@)[b].0 by {
                        if a != i && b != i {
                            assert(old_table[a].0 != old_table[b].0);
                        } else {
                            lemma_assoc_index(old_table, entry.0);
                            let o = if a == i { b } else { a };
                            assert(old_table[o].0 != old_table[i as int].0);
                        }
                    }
                }
            },
            None => {
                users.push(user);
                proof {
                    assert(user_entries(users@) =~= old_table.push(entry));
                    assert forall|u: Seq<char>| #[trigger] assoc_get(user_entries(users@), u) == if u == entry.0 {
                        Some(entry.1)
                    } else {
                        assoc_get(old_table, u)
                    } by {
                        lemma_assoc_push(old_table, entry, u);
                        lemma_assoc_index(old_table, u);
                    }
                    lemma_assoc_index(old_table, entry.0);
                }
            },
        }
        self.users = users;
        Ok(())
    }

    /// The registered user with this id, cloned.
    pub fn get_user(&self, user_id: &str) -> (r: Option<User>)
        ensures
            match r {
                Some(u) => self.user(user_id@) == Some(u@),
                None => self.user(user_id@).is_none(),
            },
    {
        match self.find_user(user_id) {
            Some(i) => Some(self.users[i].clone()),
            None => None,
        }
    }

    fn find_grant(&self, role: &Role, action: &Action, resource: &Resource) -> (r: Option<usize>)
        ensures
            match r {
                Some(i) => assoc_index(self.grant_table(), (role@, *action, resource@)) == Some(i as int)
                    && i < self.grants@.len(),
                None => assoc_index(self.grant_table(), (role@, *action, resource@)).is_none(),
            },
    {
        let ghost k = (role@, *action, resource@);
        proof {
            lemma_assoc_index(self.grant_table(), k);
        }
        let n = self.grants.len();
        let mut i: usize = 0;
        while i < n
            invariant
                n == self.grants@.len(),
                i <= n,
                k == (role@, *action, resource@),
                forall|j: int| 0 <= j < i ==> #[trigger] self.grant_table()[j].0 != k,
            decreases n - i,
        {
            let g = &self.grants[i];
            if g.0.same_as(role) && g.1 == *action && g.2.same_as(resource) {
                proof {
                    lemma_assoc_index(self.grant_table(), k);
                    assert(self.grant_table()[i as int].0 == k);
                    match assoc_index(self.grant_table(), k) {
                        Some(m) => {
                            if m > i {
                                assert(self.grant_table()[i as int].0 != k);
                            }
                        },
                        None => {},
                    }
                }
                return Some(i);
            }
            proof {
                assert(self.grant_table()[i as int].0 != k);
            }
            i = i + 1;
        }
        proof {
            if let Some(m) = assoc_index(self.grant_table(), k) {
                assert(self.grant_table()[m].0 == k);
            }
        }
        None
    }

    /// Whether `role` may perform `action` on `resource`.
    pub fn check_permission(&self, role: &Role, action: &Action, resource: &Resource) -> (b: bool)
        ensures
            b == self.allows(role@, *action, resource@),
    {
        match self.find_grant(role, action, resource) {
            Some(i) => self.grants[i].3,
            None => default_permission(role, action, resource),
        }
    }

    /// Whether a registered, active user may perform `action` on `resource`.
    pub fn can_user_perform(&self, user_id: &str, action: &Action, resource: &Resource) -> (b: bool)
        ensures
            b == self.user_may(user_id@, *action, resource@),
    {
        match self.get_user(user_id) {
            Some(user) => {
                if user.active {
                    self.check_permission(&user.role, action, resource)
                } else {
                    false
                }
            },
            None => false,
        }
    }

    fn set_permission(&mut self, role: Role, action: Action, resource: Resource, allowed: bool)
        ensures
            final(self).user_table() == old(self).user_table(),
            forall|r: RoleView, a: Action, res: ResourceView| #[trigger] final(self).allows(r, a, res)
                == if r == role@ && a == action && res == resource@ {
                allowed
            } else {
                old(self).allows(r, a, res)
            },
    {
        proof {
            use_type_invariant(&*self);
        }
        let ghost old_table = self.grant_table();
        let ghost entry = ((role@, action, resource@), allowed);
        let found = self.find_grant(&role, &action, &resource);
        let mut grants: Vec<(Role, Action, Resource, bool)> = Vec::new();
        std::mem::swap(&mut grants, &mut self.grants);
        match found {
            Some(i) => {
                grants.set(i, (role, action, resource, allowed));
                self.grants = grants;
                proof {
                    assert(self.grant_table() =~= old_table.update(i as int, entry));
                    assert forall|r: RoleView, a: Action, res: ResourceView|
                        #[trigger] assoc_get(self.grant_table(), (r, a, res)) == if (r, a, res) == entry.0 {
                        Some(allowed)
                    } else {
                        assoc_get(old_table, (r, a, res))
                    } by {
                        lemma_assoc_update(old_table, i as int, entry, (r, a, res));
                    }
                }
            },
            None => {
                grants.push((role, action, resource, allowed));
                self.grants = grants;
                proof {
                    assert(self.grant_table() =~= old_table.push(entry));
                    assert forall|r: RoleView, a: Action, res: ResourceView|
                        #[trigger] assoc_get(self.grant_table(), (r, a, res)) == if (r, a, res) == entry.0 {
                        Some(allowed)
                    } else {
                        assoc_get(old_table, (r, a, res))
                    } by {
                        lemma_assoc_push(old_table, entry, (r, a, res));
                        lemma_assoc_index(old_table, (r, a, res));
                    }
                }
            },
        }
        assert forall|r: RoleView, a: Action, res: ResourceView| #[trigger] self.allows(r, a, res)
            == if r == role@ && a == action && res == resource@ {
            allowed
        } else {
            old(self).allows(r, a, res)
        } by {
            assert(assoc_get(self.grant_table(), (r, a, res)) == if (r, a, res) == entry.0 {
                Some(allowed)
            } else {
                assoc_get(old_table, (r, a, res))
            });
        }
    }

    /// Allows `role` to perform `action` on `resource`.
    pub fn grant_permission(&mut self, role: Role, action: Action, resource: Resource)
        ensures
            sets_permission(*old(self), *final(self), role@, action, resource@, true),
    {
        self.set_permission(role, action, resource, true);
    }

    /// Forbids `role` to perform `action` on `resource`.
    pub fn revoke_permission(&mut self, role: Role, action: Action, resource: Resource)
        ensures
            sets_permission(*old(self), *final(self), role@, action, resource@, false),
    {
        self.set_permission(role, action, resource, false);
    }

    /// Every registered user, one per id.
    pub fn list_users(&self) -> (v: Vec<User>)
        ensures
            user_entries(v@) == self.user_table(),
            assoc_distinct(user_entries(v@)),
    {
        proof {
            use_type_invariant(self);
        }
        let mut v: Vec<User> = Vec::new();
        let n = self.users.len();
        let mut i: usize = 0;
        while i < n
            invariant
                n == self.users@.len(),
                i <= n,
                v@ == self.users@.take(i as int),
            decreases n - i,
        {
            v.push(self.users[i].clone());
            i = i + 1;
            assert(v@ =~= self.users@.take(i as int));
        }
        assert(self.users@.take(n as int) =~= self.users@);
        v
    }

    /// Marks a user inactive; does nothing when the id is not registered.
    pub fn deactivate_user(&mut self, user_id: &str) -> (r: KitResult<()>)
        ensures
            r is Ok,
            deactivates(*old(self), *final(self), user_id@),
    {
        proof {
            use_type_invariant(&*self);
        }
        let ghost old_table = self.user_table();
        let mut users: Vec<User> = Vec::new();
        std::mem::swap(&mut users, &mut self.users);
        match find_in(&users, user_id) {
            Some(i) => {
                let mut u = users[i].clone();
                u.active = false;
                let ghost entry = (u.user_id@, u@);
                users.set(i, u);
                proof {
                    lemma_assoc_index(old_table, user_id@);
                    assert(entry.0 == user_id@);
                    assert(user_entries(users@) =~= old_table.update(i as int, entry));
                    assert forall|k: Seq<char>| #[trigger] assoc_get(user_entries(users@), k) == if k == entry.0 {
                        Some(entry.1)
                    } else {
                        assoc_get(old_table, k)
                    } by {
                        lemma_assoc_update(old_table, i as int, entry, k);
                    }
                    assert forall|a: int, b: int|
                        0 <= a < b < user_entries(users@).len() implies #[trigger] user_entries(users@)[a].0
                        != #[trigger] user_entries(users@)[b].0 by {
                        if a != i && b != i {
                            assert(old_table[a].0 != old_table[b].0);
                        } else {
                            let o = if a == i { b } else { a };
                            assert(old_table[o].0 != old_table[i as int].0);
                        }
                    }
                }
            },
            None => {
                assert(user_entries(users@) == old_table);
            },
        }
        self.users = users;
        Ok(())
    }
}

/// Position of the first user with id `user_id`.
fn find_in(users: &Vec<User>, user_id: &str) -> (r: Option<usize>)
    ensures
        match r {
            Some(i) => assoc_index(user_entries(users@), user_id@) == Some(i as int) && i < users@.len(),
            None => assoc_index(user_entries(users@), user_id@).is_none(),
        },
{
    let ghost t = user_entries(users@);
    proof {
        lemma_assoc_index(t, user_id@);
    }
    let n = users.len();
    let mut i: usize = 0;
    while i < n
        invariant
            n == users@.len(),
            t == user_entries(users@),
            i <= n,
            forall|j: int| 0 <= j < i ==> #[trigger] t[j].0 != user_id@,
        decreases n - i,
    {
        if str_eq(users[i].user_id.as_str(), user_id) {
            proof {
                lemma_assoc_index(t, user_id@);
                assert(t[i as int].0 == user_id@);
                match assoc_index(t, user_id@) {
                    Some(k) => {
                        if k > i {
                            assert(t[i as int].0 != user_id@);
                        }
                    },
                    None => {},
                }
            }
            return Some(i);
        }
        i = i + 1;
    }
    proof {
        if let Some(k) = assoc_index(t, user_id@) {
            assert(t[k].0 == user_id@);
        }
    }
    None
}

/// `after` is `before` with the permission of `role` for `action` on
/// `resource` set to `allowed`: every other permission and every user are
/// unchanged.
pub open spec fn sets_permission(
    before: RBACManager,
    after: RBACManager,
    role: RoleView,
    action: Action,
    resource: ResourceView,
    allowed: bool,
) -> bool {
    &&& after.user_table() == before.user_table()
    &&& forall|r: RoleView, a: Action, res: ResourceView| #[trigger] after.allows(r, a, res) == if r == role
        && a == action && res == resource {
        allowed
    } else {
        before.allows(r, a, res)
    }
}

/// `after` is `before` with `user` registered under its id, replacing any
/// user with that id; permissions are unchanged.
pub open spec fn registers(before: RBACManager, after: RBACManager, user: UserView) -> bool {
    &&& after.grant_table() == before.grant_table()
    &&& forall|u: Seq<char>| #[trigger] after.user(u) == if u == user.user_id {
        Some(user)
    } else {
        before.user(u)
    }
}

/// `after` is `before` with user `user_id` marked inactive when registered;
/// permissions and every other user are unchanged.
pub open spec fn deactivates(before: RBACManager, after: RBACManager, user_id: Seq<char>) -> bool {
    &&& after.grant_table() == before.grant_table()
    &&& forall|u: Seq<char>| #[trigger] after.user(u) == if u == user_id {
        match before.user(u) {
            Some(v) => Some(UserView { active: false, ..v }),
            None => None,
        }
    } else {
        before.user(u)
    }
}

/// By default an administrator may perform every action on every built-in
/// resource.
pub proof fn law_admin_may_act_on_builtin_resources(action: Action, resource: ResourceView)
    requires
        is_builtin_resource(resource),
    ensures
        default_allows(RoleView::Admin, action, resource),
{
}

/// By default a viewer may only view.
pub proof fn law_viewer_only_views(action: Action, resource: ResourceView)
    requires
        default_allows(RoleView::Viewer, action, resource),
    ensures
        action == Action::View,
{
}

/// The default permissions of a manager, as a list: view, create and edit
/// segments; export and activate audiences; view the dashboard and the audit
/// log; and nothing else.
pub proof fn law_manager_defaults(action: Action, resource: ResourceView)
    ensures
        default_allows(RoleView::Manager, action, resource) <==> set![
            (Action::View, ResourceView::Segment),
            (Action::Create, ResourceView::Segment),
            (Action::Edit, ResourceView::Segment),
            (Action::Export, ResourceView::Audience),
            (Action::Activate, ResourceView::Audience),
            (Action::View, ResourceView::Dashboard),
            (Action::View, ResourceView::AuditLog),
        ].contains((action, resource)),
{
}

/// The default permissions of an analyst, as a list: view segments and the
/// dashboard; export and create audiences; and nothing else.
pub proof fn law_analyst_defaults(action: Action, resource: ResourceView)
    ensures
        default_allows(RoleView::Analyst, action, resource) <==> set![
            (Action::View, ResourceView::Segment),
            (Action::View, ResourceView::Dashboard),
            (Action::Export, ResourceView::Audience),
            (Action::Create, ResourceView::Audience),
        ].contains((action, resource)),
{
}

/// The default permissions of a viewer, as a list: view segments, the
/// dashboard and the audit log; and nothing else.
pub proof fn law_viewer_defaults(action: Action, resource: ResourceView)
    ensures
        default_allows(RoleView::Viewer, action, resource) <==> set![
            (Action::View, ResourceView::Segment),
            (Action::View, ResourceView::Dashboard),
            (Action::View, ResourceView::AuditLog),
        ].contains((action, resource)),
{
}

/// By default an administrator may do nothing on a custom resource.
pub proof fn law_admin_has_no_default_on_custom_resources(action: Action, name: Seq<char>)
    ensures
        !default_allows(RoleView::Admin, action, ResourceView::Custom(name)),
{
}

/// By default a custom role may do nothing.
pub proof fn law_custom_role_has_no_default(name: Seq<char>, action: Action, resource: ResourceView)
    ensures
        !default_allows(RoleView::Custom(name), action, resource),
{
}

/// Of two changes to the same permission the later one wins, and every
/// other permission is as it was before both.
pub proof fn law_last_permission_change_wins(
    m0: RBACManager,
    m1: RBACManager,
    m2: RBACManager,
    role: RoleView,
    action: Action,
    resource: ResourceView,
    first: bool,
    second: bool,
)
    requires
        sets_permission(m0, m1, role, action, resource, first),
        sets_permission(m1, m2, role, action, resource, second),
    ensures
        m2.allows(role, action, resource) == second,
        m2.user_table() == m0.user_table(),
        forall|r: RoleView, a: Action, res: ResourceView|
            !(r == role && a == action && res == resource) ==> #[trigger] m2.allows(r, a, res) == m0.allows(
                r,
                a,
                res,
            ),
{
    assert(m2.allows(role, action, resource) == second);
    assert forall|r: RoleView, a: Action, res: ResourceView|
        !(r == role && a == action && res == resource) implies #[trigger] m2.allows(r, a, res)
        == m0.allows(r, a, res) by {
        assert(m2.allows(r, a, res) == m1.allows(r, a, res));
        assert(m1.allows(r, a, res) == m0.allows(r, a, res));
    }
}

/// A user who is not registered, or not active, may do nothing.
pub proof fn law_unknown_or_inactive_user_may_not_act(
    m: RBACManager,
    user_id: Seq<char>,
    action: Action,
    resource: ResourceView,
)
    requires
        match m.user(user_id) {
            Some(v) => !v.active,
            None => true,
        },
    ensures
        !m.user_may(user_id, action, resource),
{
}

/// A registered, active user may do exactly what the user's role may.
pub proof fn law_active_user_acts_by_role(
    m: RBACManager,
    user_id: Seq<char>,
    action: Action,
    resource: ResourceView,
)
    requires
        m.user(user_id) is Some,
        m.user(user_id)->0.active,
    ensures
        m.user_may(user_id, action, resource) == m.allows(m.user(user_id)->0.role, action, resource),
{
}

/// Right after registration an active user may do exactly what the user's
/// role allowed before, since registering changes no permission.
pub proof fn law_registered_user_acts_by_role(
    m0: RBACManager,
    m1: RBACManager,
    user: UserView,
    action: Action,
    resource: ResourceView,
)
    requires
        registers(m0, m1, user),
        user.active,
    ensures
        m1.user_may(user.user_id, action, resource) == m0.allows(user.role, action, resource),
{
    assert(m1.user(user.user_id) == Some(user));
    assert(m1.allows(user.role, action, resource) == m0.allows(user.role, action, resource));
}

/// A deactivated user may do nothing, and deactivation changes no
/// permission of any role.
pub proof fn law_deactivated_user_may_not_act(
    m0: RBACManager,
    m1: RBACManager,
    user_id: Seq<char>,
    action: Action,
    resource: ResourceView,
)
    requires
        deactivates(m0, m1, user_id),
    ensures
        !m1.user_may(user_id, action, resource),
        forall|r: RoleView, a: Action, res: ResourceView| #[trigger] m1.allows(r, a, res) == m0.allows(r, a, res),
{
    assert(m1.user(user_id) == match m0.user(user_id) {
        Some(v) => Some(UserView { active: false, ..v }),
        None => None,
    });
}

/// Recording an event adds it to the history of its user and leaves the
/// history of every other user unchanged.
pub proof fn law_record_extends_only_its_user_history(
    entries: Seq<AuditEventView>,
    event: AuditEventView,
    user_id: Seq<char>,
)
    ensures
        keep(entries.push(event), by_user(user_id)) == if event.user_id == user_id {
            keep(entries, by_user(user_id)).push(event)
        } else {
            keep(entries, by_user(user_id))
        },
{
    lemma_keep_push(entries, event, by_user(user_id));
}

impl Default for RBACManager {
    fn default() -> (m: Self)
        ensures
            forall|r: RoleView, a: Action, res: ResourceView| #[trigger] m.allows(r, a, res) == default_allows(r, a, res),
            forall|u: Seq<char>| #[trigger] m.user(u).is_none(),
    {
        RBACManager::new()
    }
}

} // verus!
