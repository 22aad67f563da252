//! The metadata of entity types (fields, states, transitions, forms, actions)
//! and the decisions of running an entity action on an object.

use vstd::prelude::*;
use crate::platform::{PlatformError, EntityKind, FieldKind, ObjectState, state_code, error_prefix, error_detail};
use crate::json::JsonValue;
use crate::text::{owned, concat2, concat3, str_eq};
use crate::trusted::{uuid_syntax, uuid_canonical, spec_uuid_canonical, uuid_error_text, spec_uuid_error_text};
use crate::validation::EntityField;
use crate::permission::{PermissionPolicy, check_permission, permission_result};
use crate::audit::AuditChanges;
use crate::objects::Object;

verus! {

/// A type of entity (a kind of document, catalog, …). Times are milliseconds
/// since the Unix epoch.
pub struct EntityType {
    pub id: String,
    pub company_id: Option<String>,
    pub code: String,
    pub name: String,
    pub kind: EntityKind,
    pub description: Option<String>,
    pub icon: Option<String>,
    pub is_active: bool,
    pub created_at: i64,
    pub updated_at: i64,
}

/// A state that objects of a type can be in.
pub struct EntityState {
    pub id: String,
    pub entity_type_id: String,
    pub code: String,
    pub name: String,
    pub is_initial: bool,
    pub is_final: bool,
    pub color: Option<String>,
    pub order: i32,
}

/// An allowed move of objects of a type from one state to another.
pub struct EntityTransition {
    pub id: String,
    pub entity_type_id: String,
    pub code: String,
    pub name: String,
    pub from_state: String,
    pub to_state: String,
    pub required_policy: Option<String>,
    pub require_signature: bool,
}

/// A form of a type: its layout as JSON.
pub struct EntityForm {
    pub id: String,
    pub entity_type_id: String,
    pub code: String,
    pub name: String,
    pub layout: JsonValue,
    pub created_at: i64,
    pub updated_at: i64,
}

/// How an entity action is carried out: as a state transition, or by a
/// handler of its own.
#[derive(PartialEq, Eq, Structural, Clone, Copy, Debug)]
pub enum ActionHandlerKind {
    Transition,
    Custom,
}

/// An action that users can run on objects of a type.
pub struct EntityAction {
    pub id: String,
    pub entity_type_id: String,
    pub code: String,
    pub name: String,
    pub description: Option<String>,
    pub action_type: Option<String>,
    pub handler_kind: ActionHandlerKind,
    pub target_state: Option<String>,
    pub handler_ref: Option<String>,
    pub required_policy: Option<String>,
    pub is_dangerous: bool,
    pub created_at: i64,
}

pub struct CreateEntityTypeInput {
    pub code: String,
    pub name: String,
    pub kind: EntityKind,
    pub description: Option<String>,
    pub icon: Option<String>,
}

pub struct UpdateEntityTypeInput {
    pub name: Option<String>,
    pub description: Option<String>,
    pub icon: Option<String>,
    pub is_active: Option<bool>,
}

pub struct CreateEntityFieldInput {
    pub entity_type_id: String,
    pub code: String,
    pub name: String,
    pub field_kind: FieldKind,
    pub is_required: Option<bool>,
    pub is_readonly: Option<bool>,
    pub default_value: Option<JsonValue>,
    pub enum_values: Option<Vec<String>>,
    pub reference_entity: Option<String>,
    pub group_name: Option<String>,
}

pub struct UpdateEntityFieldInput {
    pub name: Option<String>,
    pub is_required: Option<bool>,
    pub is_readonly: Option<bool>,
    pub default_value: Option<JsonValue>,
    pub enum_values: Option<Vec<String>>,
    pub reference_entity: Option<String>,
    pub group_name: Option<String>,
    pub order: Option<i32>,
}

pub struct CreateEntityStateInput {
    pub entity_type_id: String,
    pub code: String,
    pub name: String,
    pub is_initial: Option<bool>,
    pub is_final: Option<bool>,
    pub color: Option<String>,
}

pub struct UpdateEntityStateInput {
    pub name: Option<String>,
    pub color: Option<String>,
    pub is_final: Option<bool>,
}

pub struct CreateEntityTransitionInput {
    pub entity_type_id: String,
    pub code: String,
    pub name: String,
    pub from_state: String,
    pub to_state: String,
    pub required_policy: Option<String>,
    pub require_signature: Option<bool>,
}

pub struct UpdateEntityTransitionInput {
    pub name: Option<String>,
    pub required_policy: Option<String>,
    pub require_signature: Option<bool>,
}

pub struct CreateEntityFormInput {
    pub entity_type_id: String,
    pub code: String,
    pub name: String,
    pub layout: JsonValue,
}

pub struct UpdateEntityFormInput {
    pub name: Option<String>,
    pub layout: Option<JsonValue>,
}

pub struct CreateEntityActionInput {
    pub entity_type_id: String,
    pub code: String,
    pub name: String,
    pub description: Option<String>,
    pub action_type: Option<String>,
    pub handler_kind: Option<String>,
    pub target_state: Option<String>,
    pub handler_ref: Option<String>,
    pub required_policy: Option<String>,
    pub is_dangerous: Option<bool>,
}

pub struct UpdateEntityActionInput {
    pub name: Option<String>,
    pub description: Option<String>,
    pub action_type: Option<String>,
    pub handler_kind: Option<String>,
    pub target_state: Option<String>,
    pub handler_ref: Option<String>,
    pub required_policy: Option<String>,
    pub is_dangerous: Option<bool>,
}

/// The value of an optional update, or the old value.
pub open spec fn or_keep<T>(new: Option<T>, old: T) -> T {
    match new {
        Some(v) => v,
        None => old,
    }
}

/// An optional update of an optional value: a given value replaces the old one.
pub open spec fn or_keep_opt<T>(new: Option<T>, old: Option<T>) -> Option<T> {
    match new {
        Some(v) => Some(v),
        None => old,
    }
}

fn keep_opt(new: Option<String>, old: Option<String>) -> (r: Option<String>)
    ensures
        r == or_keep_opt(new, old),
{
    match new {
        Some(v) => Some(v),
        None => old,
    }
}

/// The message when an entity type id is not a UUID.
pub open spec fn bad_type_id_message() -> Seq<char> {
    "Невалидный entity_type_id"@
}

/// Resolves an entity type id to the canonical text of its UUID.
fn type_id_of(s: &str) -> (r: Result<String, PlatformError>)
    ensures
        uuid_syntax(s@) ==> (r matches Ok(t) && t@ == spec_uuid_canonical(s@)),
        !uuid_syntax(s@) ==> (r matches Err(PlatformError::Validation(m)) && m@ == bad_type_id_message()),
{
    match uuid_canonical(s) {
        Some(t) => Ok(t),
        None => Err(PlatformError::Validation(owned("Невалидный entity_type_id"))),
    }
}

// ───────────────────────── entity types ─────────────────────────

/// The registry of entity types.
pub struct EntityTypeService;

impl EntityTypeService {
    /// A new, active entity type.
    pub fn new_type(input: CreateEntityTypeInput, company_id: Option<String>, id: String, now: i64) -> (r: EntityType)
        ensures
            r == (EntityType {
                id: id,
                company_id: company_id,
                code: input.code,
                name: input.name,
                kind: input.kind,
                description: input.description,
                icon: input.icon,
                is_active: true,
                created_at: now,
                updated_at: now,
            }),
    {
        EntityType {
            id,
            company_id,
            code: input.code,
            name: input.name,
            kind: input.kind,
            description: input.description,
            icon: input.icon,
            is_active: true,
            created_at: now,
            updated_at: now,
        }
    }

    /// An entity type after an update: each given value replaces the old one.
    pub fn apply_update(old: EntityType, input: UpdateEntityTypeInput, now: i64) -> (r: EntityType)
        ensures
            r == (EntityType {
                name: or_keep(input.name, old.name),
                description: or_keep_opt(input.description, old.description),
                icon: or_keep_opt(input.icon, old.icon),
                is_active: or_keep(input.is_active, old.is_active),
                updated_at: now,
                ..old
            }),
    {
        let name = match input.name { Some(n) => n, None => old.name };
        let is_active = match input.is_active { Some(a) => a, None => old.is_active };
        EntityType {
            name,
            description: keep_opt(input.description, old.description),
            icon: keep_opt(input.icon, old.icon),
            is_active,
            updated_at: now,
            ..old
        }
    }
}

// ───────────────────────── fields, states, transitions, forms ─────────────────────────

/// The registry of entity fields.
pub struct EntityFieldService;

impl EntityFieldService {
    /// A new field, placed after the type's last field (`max_order` is the
    /// highest order among them, 0 when there are none).
    pub fn new_field(input: CreateEntityFieldInput, max_order: i32, id: String, now: i64) -> (r: Result<EntityField, PlatformError>)
        requires
            max_order < i32::MAX,
        ensures
            !uuid_syntax(input.entity_type_id@) ==> (r matches Err(PlatformError::Validation(m)) && m@ == bad_type_id_message()),
            uuid_syntax(input.entity_type_id@) ==> (r matches Ok(f)
                && f.entity_type_id@ == spec_uuid_canonical(input.entity_type_id@)
                && f == (EntityField {
                    id: id,
                    entity_type_id: f.entity_type_id,
                    code: input.code,
                    name: input.name,
                    field_kind: input.field_kind,
                    is_required: or_keep(input.is_required, false),
                    is_readonly: or_keep(input.is_readonly, false),
                    default_value: input.default_value,
                    enum_values: input.enum_values,
                    reference_entity: input.reference_entity,
                    order: (max_order + 1) as i32,
                    group_name: input.group_name,
                    created_at: now,
                    updated_at: now,
                })),
    {
        let et = match type_id_of(input.entity_type_id.as_str()) {
            Ok(t) => t,
            Err(e) => { return Err(e); },
        };
        Ok(EntityField {
            id,
            entity_type_id: et,
            code: input.code,
            name: input.name,
            field_kind: input.field_kind,
            is_required: match input.is_required { Some(b) => b, None => false },
            is_readonly: match input.is_readonly { Some(b) => b, None => false },
            default_value: input.default_value,
            enum_values: input.enum_values,
            reference_entity: input.reference_entity,
            order: max_order + 1,
            group_name: input.group_name,
            created_at: now,
            updated_at: now,
        })
    }

    /// A field after an update. Only the name, the flags, the group and the
    /// order are changed; the other values of the request are not stored.
    pub fn apply_update(old: EntityField, input: UpdateEntityFieldInput, now: i64) -> (r: EntityField)
        ensures
            r == (EntityField {
                name: or_keep(input.name, old.name),
                is_required: or_keep(input.is_required, old.is_required),
                is_readonly: or_keep(input.is_readonly, old.is_readonly),
                group_name: or_keep_opt(input.group_name, old.group_name),
                order: or_keep(input.order, old.order),
                updated_at: now,
                ..old
            }),
    {
        let name = match input.name { Some(n) => n, None => old.name };
        let is_required = match input.is_required { Some(b) => b, None => old.is_required };
        let is_readonly = match input.is_readonly { Some(b) => b, None => old.is_readonly };
        let order = match input.order { Some(o) => o, None => old.order };
        EntityField {
            name,
            is_required,
            is_readonly,
            group_name: keep_opt(input.group_name, old.group_name),
            order,
            updated_at: now,
            ..old
        }
    }
}

/// The registry of entity states.
pub struct EntityStateService;

impl EntityStateService {
    /// A new state, placed after the type's last state.
    pub fn new_state(input: CreateEntityStateInput, max_order: i32, id: String) -> (r: Result<EntityState, PlatformError>)
        requires
            max_order < i32::MAX,
        ensures
            !uuid_syntax(input.entity_type_id@) ==> (r matches Err(PlatformError::Validation(m)) && m@ == bad_type_id_message()),
            uuid_syntax(input.entity_type_id@) ==> (r matches Ok(s)
                && s.entity_type_id@ == spec_uuid_canonical(input.entity_type_id@)
                && s == (EntityState {
                    id: id,
                    entity_type_id: s.entity_type_id,
                    code: input.code,
                    name: input.name,
                    is_initial: or_keep(input.is_initial, false),
                    is_final: or_keep(input.is_final, false),
                    color: input.color,
                    order: (max_order + 1) as i32,
                })),
    {
        let et = match type_id_of(input.entity_type_id.as_str()) {
            Ok(t) => t,
            Err(e) => { return Err(e); },
        };
        Ok(EntityState {
            id,
            entity_type_id: et,
            code: input.code,
            name: input.name,
            is_initial: match input.is_initial { Some(b) => b, None => false },
            is_final: match input.is_final { Some(b) => b, None => false },
            color: input.color,
            order: max_order + 1,
        })
    }

    /// A state after an update of its name, colour and finality.
    pub fn apply_update(old: EntityState, input: UpdateEntityStateInput) -> (r: EntityState)
        ensures
            r == (EntityState {
                name: or_keep(input.name, old.name),
                color: or_keep_opt(input.color, old.color),
                is_final: or_keep(input.is_final, old.is_final),
                ..old
            }),
    {
        let name = match input.name { Some(n) => n, None => old.name };
        let is_final = match input.is_final { Some(b) => b, None => old.is_final };
        EntityState { name, color: keep_opt(input.color, old.color), is_final, ..old }
    }
}

/// The registry of entity transitions.
pub struct EntityTransitionService;

impl EntityTransitionService {
    /// A new transition.
    pub fn new_transition(input: CreateEntityTransitionInput, id: String) -> (r: Result<EntityTransition, PlatformError>)
        ensures
            !uuid_syntax(input.entity_type_id@) ==> (r matches Err(PlatformError::Validation(m)) && m@ == bad_type_id_message()),
            uuid_syntax(input.entity_type_id@) ==> (r matches Ok(t)
                && t.entity_type_id@ == spec_uuid_canonical(input.entity_type_id@)
                && t == (EntityTransition {
                    id: id,
                    entity_type_id: t.entity_type_id,
                    code: input.code,
                    name: input.name,
                    from_state: input.from_state,
                    to_state: input.to_state,
                    required_policy: input.required_policy,
                    require_signature: or_keep(input.require_signature, false),
                })),
    {
        let et = match type_id_of(input.entity_type_id.as_str()) {
            Ok(t) => t,
            Err(e) => { return Err(e); },
        };
        Ok(EntityTransition {
            id,
            entity_type_id: et,
            code: input.code,
            name: input.name,
            from_state: input.from_state,
            to_state: input.to_state,
            required_policy: input.required_policy,
            require_signature: match input.require_signature { Some(b) => b, None => false },
        })
    }

    /// A transition after an update of its name, policy and signature flag.
    pub fn apply_update(old: EntityTransition, input: UpdateEntityTransitionInput) -> (r: EntityTransition)
        ensures
            r == (EntityTransition {
                name: or_keep(input.name, old.name),
                required_policy: or_keep_opt(input.required_policy, old.required_policy),
                require_signature: or_keep(input.require_signature, old.require_signature),
                ..old
            }),
    {
        let name = match input.name { Some(n) => n, None => old.name };
        let sig = match input.require_signature { Some(b) => b, None => old.require_signature };
        EntityTransition { name, required_policy: keep_opt(input.required_policy, old.required_policy), require_signature: sig, ..old }
    }

    /// The first transition from state `from` to state `to`.
    pub fn find(transitions: &[EntityTransition], from: &str, to: &str) -> (r: Option<usize>)
        ensures
            r matches Some(i) ==> i < transitions@.len() && transitions@[i as int].from_state@ == from@
                && transitions@[i as int].to_state@ == to@
                && forall|j: int| 0 <= j < i ==> !(#[trigger] transitions@[j].from_state@ == from@ && transitions@[j].to_state@ == to@),
            r is None ==> forall|j: int| 0 <= j < transitions@.len()
                ==> !(#[trigger] transitions@[j].from_state@ == from@ && transitions@[j].to_state@ == to@),
    {
        let mut i: usize = 0;
        while i < transitions.len()
            invariant
                i <= transitions@.len(),
                forall|j: int| 0 <= j < i ==> !(#[trigger] transitions@[j].from_state@ == from@ && transitions@[j].to_state@ == to@),
            decreases transitions.len() - i,
        {
            if str_eq(transitions[i].from_state.as_str(), from) && str_eq(transitions[i].to_state.as_str(), to) {
                return Some(i);
            }
            i = i + 1;
        }
        None
    }
}

/// The registry of entity forms.
pub struct EntityFormService;

impl EntityFormService {
    /// A new form.
    pub fn new_form(input: CreateEntityFormInput, id: String, now: i64) -> (r: Result<EntityForm, PlatformError>)
        ensures
            !uuid_syntax(input.entity_type_id@) ==> (r matches Err(PlatformError::Validation(m)) && m@ == bad_type_id_message()),
            uuid_syntax(input.entity_type_id@) ==> (r matches Ok(f)
                && f.entity_type_id@ == spec_uuid_canonical(input.entity_type_id@)
                && f == (EntityForm {
                    id: id,
                    entity_type_id: f.entity_type_id,
                    code: input.code,
                    name: input.name,
                    layout: input.layout,
                    created_at: now,
                    updated_at: now,
                })),
    {
        let et = match type_id_of(input.entity_type_id.as_str()) {
            Ok(t) => t,
            Err(e) => { return Err(e); },
        };
        Ok(EntityForm { id, entity_type_id: et, code: input.code, name: input.name, layout: input.layout, created_at: now, updated_at: now })
    }
}

// ───────────────────────── actions ─────────────────────────

/// The stored code of a handler kind.
pub open spec fn handler_code(k: ActionHandlerKind) -> Seq<char> {
    match k {
        ActionHandlerKind::Transition => "transition"@,
        ActionHandlerKind::Custom => "custom"@,
    }
}

/// The handler kind a stored code names; any other code, or none, is `Custom`.
pub open spec fn handler_kind_of(code: Option<Seq<char>>) -> ActionHandlerKind {
    match code {
        Some(c) => if c == "transition"@ { ActionHandlerKind::Transition } else { ActionHandlerKind::Custom },
        None => ActionHandlerKind::Custom,
    }
}

impl ActionHandlerKind {
    /// The stored code of the kind.
    pub fn as_str(&self) -> (r: &'static str)
        ensures
            r@ == handler_code(*self),
    {
        match self {
            ActionHandlerKind::Transition => "transition",
            ActionHandlerKind::Custom => "custom",
        }
    }

    /// The kind a stored code names, `Custom` by default.
    pub fn from_code(code: Option<&str>) -> (r: ActionHandlerKind)
        ensures
            r == handler_kind_of(crate::permission::opt_str_view(code)),
    {
        match code {
            Some(c) => if str_eq(c, "transition") { ActionHandlerKind::Transition } else { ActionHandlerKind::Custom },
            None => ActionHandlerKind::Custom,
        }
    }
}

/// The registry of entity actions.
pub struct EntityActionService;

impl EntityActionService {
    /// A new action.
    pub fn new_action(input: CreateEntityActionInput, id: String, now: i64) -> (r: Result<EntityAction, PlatformError>)
        ensures
            !uuid_syntax(input.entity_type_id@) ==> (r matches Err(PlatformError::Validation(m)) && m@ == bad_type_id_message()),
            uuid_syntax(input.entity_type_id@) ==> (r matches Ok(a)
                && a.entity_type_id@ == spec_uuid_canonical(input.entity_type_id@)
                && a == (EntityAction {
                    id: id,
                    entity_type_id: a.entity_type_id,
                    code: input.code,
                    name: input.name,
                    description: input.description,
                    action_type: input.action_type,
                    handler_kind: handler_kind_of(match input.handler_kind { Some(h) => Some(h@), None => None }),
                    target_state: input.target_state,
                    handler_ref: input.handler_ref,
                    required_policy: input.required_policy,
                    is_dangerous: or_keep(input.is_dangerous, false),
                    created_at: now,
                })),
    {
        let et = match type_id_of(input.entity_type_id.as_str()) {
            Ok(t) => t,
            Err(e) => { return Err(e); },
        };
        let kind = match &input.handler_kind {
            Some(h) => ActionHandlerKind::from_code(Some(h.as_str())),
            None => ActionHandlerKind::Custom,
        };
        Ok(EntityAction {
            id,
            entity_type_id: et,
            code: input.code,
            name: input.name,
            description: input.description,
            action_type: input.action_type,
            handler_kind: kind,
            target_state: input.target_state,
            handler_ref: input.handler_ref,
            required_policy: input.required_policy,
            is_dangerous: match input.is_dangerous { Some(b) => b, None => false },
            created_at: now,
        })
    }
}

/// What running an action reports.
pub struct ActionResult {
    pub success: bool,
    pub message: String,
    pub new_state: Option<String>,
    pub changes: Option<AuditChanges>,
}

/// What checking a transition reports: whether the object's type allows a
/// move from its state to the action's target state, and the first such
/// transition.
pub struct TransitionCheck {
    pub valid: bool,
    pub current_state: String,
    pub target_state: String,
    pub transition: Option<usize>,
}

/// Does some transition lead from `from` to `to`?
pub open spec fn has_transition(ts: Seq<EntityTransition>, from: Seq<char>, to: Seq<char>) -> bool {
    exists|j: int| 0 <= j < ts.len() && (#[trigger] ts[j].from_state@ == from && ts[j].to_state@ == to)
}

/// Checks whether an action can move an object in `state`: only a transition
/// action with a target state is checked.
pub fn check_transition(action: &EntityAction, state: ObjectState, transitions: &[EntityTransition]) -> (r: Result<TransitionCheck, String>)
    ensures
        action.handler_kind != ActionHandlerKind::Transition ==> (r matches Err(m)
            && m@ == "Действие не является переходом (handler_kind != transition)"@),
        action.handler_kind == ActionHandlerKind::Transition && action.target_state is None ==> (r matches Err(m)
            && m@ == "Действие не имеет target_state"@),
        action.handler_kind == ActionHandlerKind::Transition ==> (action.target_state matches Some(t) ==> (r matches Ok(c)
            && c.current_state@ == state_code(state)
            && c.target_state == t
            && c.valid == has_transition(transitions@, state_code(state), t@)
            && (c.transition is Some <==> c.valid)
            && (c.transition matches Some(i) ==> i < transitions@.len()
                && transitions@[i as int].from_state@ == state_code(state) && transitions@[i as int].to_state@ == t@
                && forall|j: int| 0 <= j < i ==> !(#[trigger] transitions@[j].from_state@ == state_code(state)
                    && transitions@[j].to_state@ == t@)))),
{
    if action.handler_kind != ActionHandlerKind::Transition {
        return Err(owned("Действие не является переходом (handler_kind != transition)"));
    }
    let target = match &action.target_state {
        Some(t) => t,
        None => { return Err(owned("Действие не имеет target_state")); },
    };
    let current = owned(state.code());
    let found = EntityTransitionService::find(transitions, current.as_str(), target.as_str());
    proof {
        if has_transition(transitions@, state_code(state), target@) {
            let j = choose|j: int| 0 <= j < transitions@.len()
                && (#[trigger] transitions@[j].from_state@ == state_code(state) && transitions@[j].to_state@ == target@);
            assert(transitions@[j].from_state@ == current@ && transitions@[j].to_state@ == target@);
        }
    }
    Ok(TransitionCheck { valid: found.is_some(), current_state: current, target_state: target.clone(), transition: found })
}

/// What running an entity action comes to, once every check has passed.
pub enum ActionDecision {
    /// Post the object (draft → posted) at its current version.
    Post { current_state: String, target_state: String },
    /// Cancel the object (posted → cancelled) at its current version.
    Cancel { current_state: String, target_state: String },
    /// The action is carried out by its own handler.
    Custom { message: String },
    /// The target state is not a state that objects have; the caller reports
    /// the parse error of the state's name.
    UnknownState { target_state: String },
}

/// The message of a transition that has no definition for the type.
pub open spec fn missing_transition_message(from: Seq<char>, to: Seq<char>) -> Seq<char> {
    "Переход "@ + from + " → "@ + to + " не найден"@
}

/// The message of a transition that the platform does not carry out directly.
pub open spec fn unsupported_transition_message(from: Seq<char>, to: Seq<char>) -> Seq<char> {
    "Прямой переход "@ + from + " → "@ + to + " не поддерживается. Используйте update_object + state change."@
}

/// The message of a custom action.
pub open spec fn custom_action_message(code: Seq<char>, handler_ref: Seq<char>) -> Seq<char> {
    "Кастомное действие '"@ + code + "' выполнено (handler_ref: "@ + handler_ref + ")"@
}

/// The message after a transition was carried out.
pub open spec fn transition_done_message(from: Seq<char>, to: Seq<char>) -> Seq<char> {
    "Переход выполнен: "@ + from + " → "@ + to
}

/// The whole message of a permission refusal (as the command reports it).
pub open spec fn permission_refusal(ps: Seq<PermissionPolicy>, perm: Seq<char>) -> Option<Seq<char>> {
    match permission_result(ps, perm) {
        Ok(()) => None,
        Err(m) => Some("Нарушение прав доступа: "@ + m),
    }
}

/// The decision for running `action` on `obj`, in the order the checks are
/// made: the session's company, the action's own policy, then for a
/// transition its target, its definition, the signed-in user, the company id
/// and the pair of states; for a custom action its handler.
pub open spec fn action_decision_failure(
    action: EntityAction,
    obj: Object,
    company: Option<Seq<char>>,
    policies: Seq<PermissionPolicy>,
    transitions: Seq<EntityTransition>,
    signed_in: bool,
) -> Option<Seq<char>> {
    match company {
        None => Some("Не выбрана компания"@),
        Some(c) => if obj.company_id@ != c {
            Some("Доступ запрещён: объект другой компании"@)
        } else if action.required_policy matches Some(p) && permission_refusal(policies, p@) is Some {
            permission_refusal(policies, action.required_policy.unwrap()@)
        } else {
            match action.handler_kind {
                ActionHandlerKind::Transition => match action.target_state {
                    None => Some("Действие не имеет target_state"@),
                    Some(t) => if !has_transition(transitions, state_code(obj.state), t@) {
                        Some(missing_transition_message(state_code(obj.state), t@))
                    } else if !signed_in {
                        Some("Необходима авторизация"@)
                    } else if !uuid_syntax(c) {
                        Some(spec_uuid_error_text(c))
                    } else {
                        None
                    },
                },
                ActionHandlerKind::Custom => if action.handler_ref is None {
                    Some("Кастомное действие без handler_ref не поддерживается"@)
                } else {
                    None
                },
            }
        },
    }
}

/// How a transition from `state` to the state named `t` is carried out:
/// draft → posted posts, posted → cancelled cancels; another pair of known
/// states is not supported directly; an unknown name is reported as such.
pub open spec fn transition_decided(state: ObjectState, t: Seq<char>, r: Result<ActionDecision, String>) -> bool {
    let cur = state_code(state);
    if state == ObjectState::Draft && t == "posted"@ {
        r matches Ok(ActionDecision::Post { current_state, target_state })
            && current_state@ == cur && target_state@ == t
    } else if state == ObjectState::Posted && t == "cancelled"@ {
        r matches Ok(ActionDecision::Cancel { current_state, target_state })
            && current_state@ == cur && target_state@ == t
    } else if exists|s: ObjectState| state_code(s) == t {
        r matches Err(e) && e@ == unsupported_transition_message(cur, t)
    } else {
        r matches Ok(ActionDecision::UnknownState { target_state }) && target_state@ == t
    }
}

fn decide_transition(state: ObjectState, target: &str) -> (r: Result<ActionDecision, String>)
    ensures
        transition_decided(state, target@, r),
{
    let current = owned(state.code());
    let new_state = ObjectState::from_code(target);
    proof {
        reveal_strlit("posted");
        reveal_strlit("cancelled");
        reveal_strlit("draft");
        reveal_strlit("active");
        reveal_strlit("archived");
        reveal_strlit("deleted");
        assert(state_code(ObjectState::Posted) == "posted"@);
        assert(state_code(ObjectState::Cancelled) == "cancelled"@);
        assert("posted"@[0] != "active"@[0]);
        assert("cancelled"@[0] != "archived"@[0]);
        assert forall|s: ObjectState| state_code(s) == "posted"@ implies s == ObjectState::Posted by {
            match s { ObjectState::Active => { assert("posted"@[0] != "active"@[0]); }, _ => {} }
        }
        assert forall|s: ObjectState| state_code(s) == "cancelled"@ implies s == ObjectState::Cancelled by {
            match s { ObjectState::Archived => { assert("cancelled"@[0] != "archived"@[0]); }, _ => {} }
        }
    }
    match new_state {
        None => {
            assert(state_code(ObjectState::Posted) != target@);
            assert(state_code(ObjectState::Cancelled) != target@);
            assert(!exists|s: ObjectState| state_code(s) == target@);
            let r: Result<ActionDecision, String> = Ok(ActionDecision::UnknownState { target_state: owned(target) });
            r
        },
        Some(ns) => {
            if state == ObjectState::Draft && ns == ObjectState::Posted {
                Ok(ActionDecision::Post { current_state: current, target_state: owned(target) })
            } else if state == ObjectState::Posted && ns == ObjectState::Cancelled {
                Ok(ActionDecision::Cancel { current_state: current, target_state: owned(target) })
            } else {
                let mut m = concat3("Прямой переход ", current.as_str(), " → ");
                m.append(target);
                m.append(" не поддерживается. Используйте update_object + state change.");
                Err(m)
            }
        },
    }
}

/// Decides how to run `action` on `obj` for the session whose company is
/// `company` and whose policies are `policies`. A refusal is the message the
/// command reports. When every check passes: a transition either posts or
/// cancels the object, is refused as not supported, or names an unknown
/// state; a custom action reports its handler.
pub fn decide_action(
    action: &EntityAction,
    obj: &Object,
    company: Option<&str>,
    policies: &Vec<PermissionPolicy>,
    transitions: &[EntityTransition],
    signed_in: bool,
) -> (r: Result<ActionDecision, String>)
    ensures
        match action_decision_failure(*action, *obj, crate::permission::opt_str_view(company), policies@, transitions@, signed_in) {
            Some(m) => r matches Err(e) && e@ == m,
            None => match action.handler_kind {
                ActionHandlerKind::Custom => r matches Ok(ActionDecision::Custom { message })
                    && message@ == custom_action_message(action.code@, action.handler_ref.unwrap()@),
                ActionHandlerKind::Transition => transition_decided(obj.state, action.target_state.unwrap()@, r),
            },
        },
{
    let c = match company {
        None => { return Err(owned("Не выбрана компания")); },
        Some(c) => c,
    };
    if !str_eq(obj.company_id.as_str(), c) {
        return Err(owned("Доступ запрещён: объект другой компании"));
    }
    if let Some(p) = &action.required_policy {
        match check_permission(policies, p.as_str()) {
            Ok(()) => {},
            Err(e) => { return Err(e.message()); },
        }
    }
    match action.handler_kind {
        ActionHandlerKind::Transition => {
            let target = match &action.target_state {
                Some(t) => t,
                None => { return Err(owned("Действие не имеет target_state")); },
            };
            let current = owned(obj.state.code());
            let found = EntityTransitionService::find(transitions, current.as_str(), target.as_str());
            if found.is_none() {
                let mut m = concat3("Переход ", current.as_str(), " → ");
                m.append(target.as_str());
                m.append(" не найден");
                return Err(m);
            }
            proof {
                let i = found.unwrap() as int;
                assert(transitions@[i].from_state@ == state_code(obj.state) && transitions@[i].to_state@ == target@);
            }
            if !signed_in {
                return Err(owned("Необходима авторизация"));
            }
            if let Some(e) = uuid_error_text(c) {
                return Err(e);
            }
            decide_transition(obj.state, target.as_str())
        },
        ActionHandlerKind::Custom => {
            match &action.handler_ref {
                Some(h) => {
                    let mut m = concat3("Кастомное действие '", action.code.as_str(), "' выполнено (handler_ref: ");
                    m.append(h.as_str());
                    m.append(")");
                    Ok(ActionDecision::Custom { message: m })
                },
                None => Err(owned("Кастомное действие без handler_ref не поддерживается")),
            }
        },
    }
}

/// What a transition action reports once the object has moved.
pub fn transition_result(current_state: &str, target_state: &str, changes: Option<AuditChanges>) -> (r: ActionResult)
    ensures
        r.success,
        r.message@ == transition_done_message(current_state@, target_state@),
        r.new_state matches Some(s) && s@ == target_state@,
        r.changes == changes,
{
    let mut m = concat3("Переход выполнен: ", current_state, " → ");
    m.append(target_state);
    ActionResult { success: true, message: m, new_state: Some(owned(target_state)), changes }
}

/// What a custom action reports.
pub fn custom_result(message: String) -> (r: ActionResult)
    ensures
        r.success,
        r.message == message,
        r.new_state is None,
        r.changes is None,
{
    ActionResult { success: true, message, new_state: None, changes: None }
}

/// What a decision to run an entity action guarantees: the session has a
/// company and the object belongs to it; the action's own policy, if it has
/// one, passes the permission check; a transition goes ahead only along a
/// transition the type defines from the object's state, for a signed-in user
/// in a company with a well-formed id; a custom action has a handler.
pub proof fn lemma_action_decision_guards(
    action: EntityAction,
    obj: Object,
    company: Option<Seq<char>>,
    policies: Seq<PermissionPolicy>,
    transitions: Seq<EntityTransition>,
    signed_in: bool,
)
    ensures
        company is None ==> action_decision_failure(action, obj, company, policies, transitions, signed_in) is Some,
        action_decision_failure(action, obj, company, policies, transitions, signed_in) is None ==> {
            &&& company matches Some(c) && obj.company_id@ == c
            &&& (action.required_policy matches Some(p) ==> permission_result(policies, p@) is Ok)
            &&& (action.handler_kind == ActionHandlerKind::Transition ==> {
                &&& action.target_state matches Some(t)
                &&& has_transition(transitions, state_code(obj.state), t@)
                &&& signed_in
                &&& uuid_syntax(company->0)
            })
            &&& (action.handler_kind == ActionHandlerKind::Custom ==> action.handler_ref is Some)
        },
{
}

/// A transition posts only a draft asked to become `posted`, and cancels only
/// a posted document asked to become `cancelled`.
pub proof fn lemma_transition_posts_drafts_cancels_posted(state: ObjectState, t: Seq<char>, r: Result<ActionDecision, String>)
    requires
        transition_decided(state, t, r),
    ensures
        r matches Ok(ActionDecision::Post { .. }) ==> state == ObjectState::Draft && t == "posted"@,
        r matches Ok(ActionDecision::Cancel { .. }) ==> state == ObjectState::Posted && t == "cancelled"@,
        (state == ObjectState::Draft && t == "posted"@) ==> r matches Ok(ActionDecision::Post { .. }),
        (state == ObjectState::Posted && t == "cancelled"@) ==> r matches Ok(ActionDecision::Cancel { .. }),
{
    reveal_strlit("posted");
    reveal_strlit("cancelled");
    assert("posted"@[0] != "cancelled"@[0]);
}

} // verus!
