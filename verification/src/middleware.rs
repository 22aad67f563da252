//! The frame every command runs in: the session context it is given, the
//! permission check before it, the record-scope check for commands on one
//! object, and the outcome it reports for the audit trail.

use vstd::prelude::*;
use crate::platform::PlatformError;
use crate::audit::{AuditChanges, AuditableAction};
use crate::events::ActorSnapshot;
use crate::permission::{
    PermissionPolicy, action_listed, action_listed_exec, check_permission, permission_parts, permission_result,
};
use crate::text::{owned, concat2, str_eq, split_once_exec, is_blank};
use crate::trusted::{uuid_canonical, uuid_error_text, spec_uuid_canonical, spec_uuid_error_text, uuid_syntax};

verus! {

/// What a command's logic returns: its result and what the audit trail
/// records about it.
pub struct CommandOutcome<T> {
    pub result: T,
    pub changes: Option<AuditChanges>,
    pub event_id: Option<String>,
    pub signature_ref: Option<String>,
}

impl<T> CommandOutcome<T> {
    /// A result with nothing to record.
    pub fn ok(result: T) -> (r: CommandOutcome<T>)
        ensures
            r.result == result,
            r.changes is None,
            r.event_id is None,
            r.signature_ref is None,
    {
        CommandOutcome { result, changes: None, event_id: None, signature_ref: None }
    }

    /// A result with the field changes it made.
    pub fn with_changes(result: T, changes: AuditChanges) -> (r: CommandOutcome<T>)
        ensures
            r.result == result,
            r.changes == Some(changes),
            r.event_id is None,
            r.signature_ref is None,
    {
        CommandOutcome { result, changes: Some(changes), event_id: None, signature_ref: None }
    }
}

/// How far a command reaches.
pub enum Scope {
    Company,
    /// One object, by id: the record-scope check applies.
    Object(String),
    Metadata,
    Platform,
    /// Nothing that needs a session.
    Unscoped,
}

/// The audit target of a command: the object it acts on, if it acts on one.
pub fn scope_target(scope: &Scope) -> (r: Option<String>)
    ensures
        match *scope {
            Scope::Object(id) => r == Some(id),
            _ => r is None,
        },
{
    match scope {
        Scope::Object(id) => Some(id.clone()),
        _ => None,
    }
}

/// The signed-in user as the session holds it.
pub struct SessionUser {
    pub id: String,
    pub login: String,
    pub display_name: String,
}

/// The context a command runs in: who runs it, in which company, under which
/// role and policies.
pub struct CommandContext {
    pub user: SessionUser,
    /// The company's UUID, as `Uuid`'s `Display` writes it.
    pub company_id: String,
    pub role_id: Option<String>,
    pub policies: Vec<PermissionPolicy>,
}

/// Why a session cannot run commands, if it cannot: nobody is signed in, no
/// company is chosen, the company id is not a UUID, or no database is connected.
pub open spec fn context_failure(
    user: Option<SessionUser>,
    company_id: Option<Seq<char>>,
    db_connected: bool,
) -> Option<PlatformError> {
    match user {
        None => Some(PlatformError::Auth(arbitrary())),
        Some(_) => match company_id {
            None => Some(PlatformError::Auth(arbitrary())),
            Some(c) => if !uuid_syntax(c) {
                Some(PlatformError::Validation(arbitrary()))
            } else if !db_connected {
                Some(PlatformError::Auth(arbitrary()))
            } else {
                None
            },
        },
    }
}

/// The detail text of each refusal of `context_failure`, in the same order.
pub open spec fn context_failure_text(user: Option<SessionUser>, company_id: Option<Seq<char>>, db_connected: bool) -> Seq<char> {
    match user {
        None => "Необходима авторизация"@,
        Some(_) => match company_id {
            None => "Не выбрана компания"@,
            Some(c) => if !uuid_syntax(c) {
                "Невалидный company_id: "@ + spec_uuid_error_text(c)
            } else {
                "БД не подключена"@
            },
        },
    }
}

/// The allow policy whose record scope governs `subsystem.action`: among the
/// allowing policies of the subsystem that list the action (or `"*"`), one of
/// highest priority, the last such in the list.
pub open spec fn scope_policy(ps: Seq<PermissionPolicy>, subsystem: Seq<char>, action: Seq<char>) -> Option<int>
    decreases ps.len(),
{
    if ps.len() == 0 {
        None
    } else {
        let prev = scope_policy(ps.drop_last(), subsystem, action);
        let p = ps.last();
        if p.subsystem_code@ == subsystem && action_listed(p, action) && !p.deny
            && (prev matches Some(b) ==> ps[b].priority <= p.priority) {
            Some(ps.len() - 1)
        } else {
            prev
        }
    }
}

/// Does the record-scope check have to load the object: the permission is
/// `subsystem.action` and its governing policy is limited to own records?
pub open spec fn needs_owner_check(ps: Seq<PermissionPolicy>, permission: Seq<char>) -> bool {
    match permission_parts(permission) {
        None => false,
        Some((sub, act)) => match scope_policy(ps, sub, act) {
            None => false,
            Some(i) => ps[i].record_scope@ == "own"@,
        },
    }
}

proof fn lemma_scope_policy_bounds(ps: Seq<PermissionPolicy>, subsystem: Seq<char>, action: Seq<char>)
    ensures
        scope_policy(ps, subsystem, action) matches Some(i) ==> 0 <= i < ps.len()
            && ps[i].subsystem_code@ == subsystem && action_listed(ps[i], action) && !ps[i].deny,
    decreases ps.len(),
{
    if ps.len() > 0 {
        lemma_scope_policy_bounds(ps.drop_last(), subsystem, action);
    }
}

impl CommandContext {
    /// The context of the current session; refused as `context_failure` says.
    pub fn extract(
        user: Option<SessionUser>,
        company_id: Option<&str>,
        role_id: Option<&str>,
        policies: Option<Vec<PermissionPolicy>>,
        db_connected: bool,
    ) -> (r: Result<CommandContext, PlatformError>)
        ensures
            match context_failure(user, crate::permission::opt_str_view(company_id), db_connected) {
                Some(f) => r matches Err(e) && (match (e, f) {
                    (PlatformError::Auth(m), PlatformError::Auth(_)) => true,
                    (PlatformError::Validation(m), PlatformError::Validation(_)) => true,
                    _ => false,
                }) && crate::platform::error_detail(e)
                    == context_failure_text(user, crate::permission::opt_str_view(company_id), db_connected),
                None => r matches Ok(c) && Some(c.user) == user
                    && c.company_id@ == spec_uuid_canonical(company_id.unwrap()@)
                    && c.policies@ == match policies { Some(p) => p@, None => Seq::empty() }
                    && (match role_id {
                        Some(rid) => if uuid_syntax(rid@) {
                            c.role_id matches Some(x) && x@ == spec_uuid_canonical(rid@)
                        } else {
                            c.role_id is None
                        },
                        None => c.role_id is None,
                    }),
            },
    {
        let user = match user {
            Some(u) => u,
            None => { return Err(PlatformError::Auth(owned("Необходима авторизация"))); },
        };
        let cid = match company_id {
            Some(c) => c,
            None => { return Err(PlatformError::Auth(owned("Не выбрана компания"))); },
        };
        let company = match uuid_canonical(cid) {
            Some(c) => c,
            None => {
                let e = uuid_error_text(cid);
                let text = match e { Some(t) => t, None => String::new() };
                return Err(PlatformError::Validation(concat2("Невалидный company_id: ", text.as_str())));
            },
        };
        let role = match role_id {
            Some(r) => uuid_canonical(r),
            None => None,
        };
        let policies = match policies {
            Some(p) => p,
            None => Vec::new(),
        };
        if !db_connected {
            return Err(PlatformError::Auth(owned("БД не подключена")));
        }
        Ok(CommandContext { user, company_id: company, role_id: role, policies })
    }

    /// The actor of the commands run in this context: the user, with the
    /// display name as full name unless it is empty, in the context's company.
    pub open spec fn actor_of(&self) -> ActorSnapshot {
        ActorSnapshot {
            user_id: self.user.id,
            login: self.user.login,
            full_name: if self.user.display_name@.len() == 0 { None } else { Some(self.user.display_name) },
            position: None,
            company_id: self.company_id,
        }
    }

    /// The actor of the commands run in this context; the full name is the
    /// display name unless that is empty.
    pub fn actor(&self) -> (r: ActorSnapshot)
        ensures
            r == self.actor_of(),
            r.user_id == self.user.id,
            r.login == self.user.login,
            r.full_name == (if self.user.display_name@.len() == 0 { None } else { Some(self.user.display_name) }),
            r.position is None,
            r.company_id == self.company_id,
    {
        let full_name = if self.user.display_name.as_str().is_empty() {
            None
        } else {
            Some(self.user.display_name.clone())
        };
        ActorSnapshot {
            user_id: self.user.id.clone(),
            login: self.user.login.clone(),
            full_name,
            position: None,
            company_id: self.company_id.clone(),
        }
    }

    /// Checks a permission code against the context's policies.
    pub fn check_permission(&self, permission: &str) -> (r: Result<(), PlatformError>)
        ensures
            permission_result(self.policies@, permission@) is Ok <==> r is Ok,
            r matches Err(e) ==> e matches PlatformError::PermissionDenied(m)
                && permission_result(self.policies@, permission@) == Err::<(), Seq<char>>(m@),
    {
        check_permission(&self.policies, permission)
    }

    /// The index of the policy that governs the record scope of
    /// `subsystem.action`, if any.
    pub fn scope_policy_index(&self, subsystem: &str, action: &str) -> (r: Option<usize>)
        ensures
            r matches Some(i) ==> scope_policy(self.policies@, subsystem@, action@) == Some(i as int),
            r is None ==> scope_policy(self.policies@, subsystem@, action@) is None,
    {
        let mut best: Option<usize> = None;
        let mut i: usize = 0;
        while i < self.policies.len()
            invariant
                i <= self.policies.len(),
                best matches Some(b) ==> scope_policy(self.policies@.take(i as int), subsystem@, action@) == Some(b as int),
                best is None ==> scope_policy(self.policies@.take(i as int), subsystem@, action@) is None,
            decreases self.policies.len() - i,
        {
            let p = &self.policies[i];
            proof {
                assert(self.policies@.take(i + 1).drop_last() =~= self.policies@.take(i as int));
                assert(self.policies@.take(i + 1).last() == self.policies@[i as int]);
                lemma_scope_policy_bounds(self.policies@.take(i as int), subsystem@, action@);
            }
            if str_eq(p.subsystem_code.as_str(), subsystem) && action_listed_exec(p, action) && !p.deny {
                let better = match best {
                    Some(b) => self.policies[b].priority <= p.priority,
                    None => true,
                };
                if better {
                    best = Some(i);
                }
            }
            i = i + 1;
        }
        assert(self.policies@.take(self.policies.len() as int) =~= self.policies@);
        best
    }

    /// The first step of the record-scope check of a command on object
    /// `obj_id`: `Ok(false)` when no ownership check is needed, `Ok(true)`
    /// when the object must be loaded and its creator compared, and a
    /// refusal when the id is not a UUID and the check is needed.
    pub fn record_scope_plan(&self, obj_id: &str, permission: &str) -> (r: Result<bool, PlatformError>)
        ensures
            !needs_owner_check(self.policies@, permission@) ==> r == Ok::<bool, PlatformError>(false),
            needs_owner_check(self.policies@, permission@) && uuid_syntax(obj_id@) ==> r == Ok::<bool, PlatformError>(true),
            needs_owner_check(self.policies@, permission@) && !uuid_syntax(obj_id@) ==> (r matches Err(PlatformError::Validation(m))
                && m@ == "Невалидный object_id: "@ + spec_uuid_error_text(obj_id@)),
    {
        let parts = split_once_exec(permission, '.');
        let (sub, act) = match parts {
            None => { return Ok(false); },
            Some((a, b)) => {
                if split_once_exec(b.as_str(), '.').is_some() {
                    return Ok(false);
                }
                (a, b)
            },
        };
        let idx = self.scope_policy_index(sub.as_str(), act.as_str());
        let i = match idx {
            None => { return Ok(false); },
            Some(i) => i,
        };
        proof {
            lemma_scope_policy_bounds(self.policies@, sub@, act@);
            assert(permission_parts(permission@) == Some((sub@, act@)));
            assert(scope_policy(self.policies@, sub@, act@) == Some(i as int));
        }
        if !str_eq(self.policies[i].record_scope.as_str(), "own") {
            return Ok(false);
        }
        match uuid_error_text(obj_id) {
            None => Ok(true),
            Some(e) => Err(PlatformError::Validation(concat2("Невалидный object_id: ", e.as_str()))),
        }
    }

    /// The second step: a record limited to its owner is open only to the
    /// user who created it.
    pub fn owner_check(&self, created_by: &str) -> (r: Result<(), PlatformError>)
        ensures
            created_by@ == self.user.id@ ==> r is Ok,
            created_by@ != self.user.id@ ==> (r matches Err(PlatformError::PermissionDenied(m))
                && m@ == "Доступ запрещён: запись принадлежит другому пользователю (record_scope = own)"@),
    {
        if str_eq(created_by, self.user.id.as_str()) {
            Ok(())
        } else {
            Err(PlatformError::PermissionDenied(owned("Доступ запрещён: запись принадлежит другому пользователю (record_scope = own)")))
        }
    }
}

/// What the audit trail is to record of a command whose logic succeeded.
pub struct AuditWrite {
    pub action: AuditableAction,
    pub user_id: String,
    pub company_id: String,
    /// The object the command acted on, for commands on one object.
    pub target_id: Option<String>,
    /// Empty text exactly when the command reported changes.
    pub object_id: Option<String>,
    pub changes: Option<AuditChanges>,
    pub event_id: Option<String>,
    pub signature_ref: Option<String>,
}

/// Where a command stands in its frame.
pub enum ExecState<T> {
    /// Nothing checked yet.
    Start,
    /// The object is being loaded to compare its creator with the user.
    OwnerPending,
    /// The command's own logic is running.
    LogicPending,
    /// The audit record is being written; the result waits for it.
    AuditPending(T),
    /// The command has answered.
    Finished,
}

/// What the runner reports back to the frame.
pub enum ExecEvent<T> {
    /// The command was called.
    Begin,
    /// The object was loaded (the id of its creator), or loading failed.
    OwnerLoaded(Result<String, PlatformError>),
    /// The command's logic returned.
    LogicReturned(Result<CommandOutcome<T>, PlatformError>),
    /// The audit record was written, or writing it failed.
    AuditWritten(Result<(), PlatformError>),
}

/// What the runner is to do next.
pub enum ExecAction<T> {
    /// Load the object with this id and report its creator.
    LoadOwner(String),
    /// Run the command's logic, once, as this actor (the context's).
    RunLogic(ActorSnapshot),
    /// Write this audit record.
    WriteAudit(AuditWrite),
    /// Answer the caller.
    Return(Result<T, PlatformError>),
}

/// Does an event answer what a state waits for?
pub open spec fn event_fits<T>(state: ExecState<T>, event: ExecEvent<T>) -> bool {
    match (state, event) {
        (ExecState::Start, ExecEvent::Begin) => true,
        (ExecState::OwnerPending, ExecEvent::OwnerLoaded(_)) => true,
        (ExecState::LogicPending, ExecEvent::LogicReturned(_)) => true,
        (ExecState::AuditPending(_), ExecEvent::AuditWritten(_)) => true,
        _ => false,
    }
}

/// The text of the refusal of a record limited to its owner.
pub open spec fn not_owner_text() -> Seq<char> {
    "Доступ запрещён: запись принадлежит другому пользователю (record_scope = own)"@
}

impl CommandContext {
    /// One step of running a command: first the permission check, then, for a
    /// command on one object, the record-scope check (which may need the
    /// object's creator), then the command's logic, then the audit record.
    /// A refusal or a failure of the logic answers at once and writes no
    /// audit record; once the logic has succeeded, its result is the answer
    /// whether or not the audit record could be written.
    pub fn step<T>(
        &self,
        permission: &str,
        scope: &Scope,
        audit_action: AuditableAction,
        state: ExecState<T>,
        event: ExecEvent<T>,
    ) -> (r: (ExecState<T>, ExecAction<T>))
        requires
            event_fits(state, event),
        ensures
            match (state, event) {
                (ExecState::Start, ExecEvent::Begin) => match permission_result(self.policies@, permission@) {
                    Err(m) => r.1 matches ExecAction::Return(Err(PlatformError::PermissionDenied(e))) && e@ == m && r.0 is Finished,
                    Ok(_) => match *scope {
                        Scope::Object(id) => if !needs_owner_check(self.policies@, permission@) {
                            r.1 matches ExecAction::RunLogic(a) && a == self.actor_of() && r.0 is LogicPending
                        } else if uuid_syntax(id@) {
                            r.1 matches ExecAction::LoadOwner(i) && i == id && r.0 is OwnerPending
                        } else {
                            r.1 matches ExecAction::Return(Err(PlatformError::Validation(e)))
                                && e@ == "Невалидный object_id: "@ + spec_uuid_error_text(id@) && r.0 is Finished
                        },
                        _ => r.1 matches ExecAction::RunLogic(a) && a == self.actor_of() && r.0 is LogicPending,
                    },
                },
                (ExecState::OwnerPending, ExecEvent::OwnerLoaded(loaded)) => match loaded {
                    Err(e) => r.0 is Finished && r.1 == ExecAction::<T>::Return(Err(e)),
                    Ok(c) => if c@ == self.user.id@ {
                        r.1 matches ExecAction::RunLogic(a) && a == self.actor_of() && r.0 is LogicPending
                    } else {
                        r.1 matches ExecAction::Return(Err(PlatformError::PermissionDenied(e)))
                            && e@ == not_owner_text() && r.0 is Finished
                    },
                },
                (ExecState::LogicPending, ExecEvent::LogicReturned(out)) => match out {
                    Err(e) => r.0 is Finished && r.1 == ExecAction::<T>::Return(Err(e)),
                    Ok(o) => r.1 matches ExecAction::WriteAudit(w)
                        && w.action == audit_action
                        && w.user_id == self.user.id
                        && w.company_id == self.company_id
                        && w.target_id == (match *scope { Scope::Object(id) => Some(id), _ => None::<String> })
                        && (w.object_id matches Some(x) ==> x@.len() == 0)
                        && (w.object_id is Some <==> o.changes is Some)
                        && w.changes == o.changes
                        && w.event_id == o.event_id
                        && w.signature_ref == o.signature_ref
                        && r.0 == ExecState::AuditPending(o.result),
                },
                (ExecState::AuditPending(t), ExecEvent::AuditWritten(_)) =>
                    r.0 is Finished && r.1 == ExecAction::<T>::Return(Ok(t)),
                _ => false,
            },
    {
        match (state, event) {
            (ExecState::Start, ExecEvent::Begin) => {
                if let Err(e) = self.check_permission(permission) {
                    return (ExecState::Finished, ExecAction::Return(Err(e)));
                }
                match scope {
                    Scope::Object(id) => match self.record_scope_plan(id.as_str(), permission) {
                        Err(e) => (ExecState::Finished, ExecAction::Return(Err(e))),
                        Ok(true) => (ExecState::OwnerPending, ExecAction::LoadOwner(id.clone())),
                        Ok(false) => (ExecState::LogicPending, ExecAction::RunLogic(self.actor())),
                    },
                    _ => (ExecState::LogicPending, ExecAction::RunLogic(self.actor())),
                }
            },
            (ExecState::OwnerPending, ExecEvent::OwnerLoaded(loaded)) => match loaded {
                Err(e) => (ExecState::Finished, ExecAction::Return(Err(e))),
                Ok(c) => match self.owner_check(c.as_str()) {
                    Ok(()) => (ExecState::LogicPending, ExecAction::RunLogic(self.actor())),
                    Err(e) => (ExecState::Finished, ExecAction::Return(Err(e))),
                },
            },
            (ExecState::LogicPending, ExecEvent::LogicReturned(out)) => match out {
                Err(e) => (ExecState::Finished, ExecAction::Return(Err(e))),
                Ok(o) => {
                    let object_id = match &o.changes {
                        Some(_) => Some(String::new()),
                        None => None,
                    };
                    let w = AuditWrite {
                        action: audit_action,
                        user_id: self.user.id.clone(),
                        company_id: self.company_id.clone(),
                        target_id: scope_target(scope),
                        object_id,
                        changes: o.changes,
                        event_id: o.event_id,
                        signature_ref: o.signature_ref,
                    };
                    (ExecState::AuditPending(o.result), ExecAction::WriteAudit(w))
                },
            },
            (ExecState::AuditPending(t), ExecEvent::AuditWritten(_)) => (ExecState::Finished, ExecAction::Return(Ok(t))),
            _ => {
                proof { assert(false); }
                (ExecState::Finished, ExecAction::RunLogic(self.actor()))
            },
        }
    }
}

} // verus!
