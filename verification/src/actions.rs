//! The platform's permission codes (`subsystem.action`, the same codes that
//! permission policies list) and the table that maps each command to the
//! permission it needs, its scope and its audited action.

use vstd::prelude::*;
use crate::audit::{AuditableAction, action_code};
use crate::permission::default_policy_row;
use crate::text::ends_with;

verus! {



pub const PLATFORM_ACCESS: &'static str = "platform.access";

pub const COMPANIES_READ: &'static str = "companies.read";
pub const COMPANIES_CREATE: &'static str = "companies.create";
pub const COMPANIES_UPDATE: &'static str = "companies.update";
pub const COMPANIES_DELETE: &'static str = "companies.delete";

pub const USERS_READ: &'static str = "users.read";
pub const USERS_CREATE: &'static str = "users.create";
pub const USERS_UPDATE: &'static str = "users.update";
pub const USERS_DELETE: &'static str = "users.delete";

pub const ROLES_READ: &'static str = "roles.read";
pub const ROLES_CREATE: &'static str = "roles.create";
pub const ROLES_UPDATE: &'static str = "roles.update";
pub const ROLES_DELETE: &'static str = "roles.delete";

pub const CONTACTS_READ: &'static str = "contacts.read";
pub const CONTACTS_CREATE: &'static str = "contacts.create";
pub const CONTACTS_UPDATE: &'static str = "contacts.update";
pub const CONTACTS_DELETE: &'static str = "contacts.delete";
pub const CONTACTS_MANAGE: &'static str = "contacts.manage";

pub const DOCUMENTS_READ: &'static str = "documents.read";
pub const DOCUMENTS_CREATE: &'static str = "documents.create";
pub const DOCUMENTS_UPDATE: &'static str = "documents.update";
pub const DOCUMENTS_DELETE: &'static str = "documents.delete";
pub const DOCUMENTS_APPROVE: &'static str = "documents.approve";
pub const DOCUMENTS_CANCEL: &'static str = "documents.cancel";

pub const CATALOGS_READ: &'static str = "catalogs.read";
pub const CATALOGS_CREATE: &'static str = "catalogs.create";
pub const CATALOGS_UPDATE: &'static str = "catalogs.update";
pub const CATALOGS_DELETE: &'static str = "catalogs.delete";

pub const METADATA_READ: &'static str = "metadata.read";
pub const METADATA_CREATE: &'static str = "metadata.create";
pub const METADATA_UPDATE: &'static str = "metadata.update";
pub const METADATA_DELETE: &'static str = "metadata.delete";

pub const REPORTS_READ: &'static str = "reports.read";
pub const REPORTS_CREATE: &'static str = "reports.create";
pub const REPORTS_EXPORT: &'static str = "reports.export";

pub const SCRIPTS_READ: &'static str = "scripts.read";
pub const SCRIPTS_CREATE: &'static str = "scripts.create";
pub const SCRIPTS_EXECUTE: &'static str = "scripts.execute";

pub const AUDIT_READ: &'static str = "audit.read";

pub const SETTINGS_READ: &'static str = "settings.read";
pub const SETTINGS_MANAGE: &'static str = "settings.manage";

pub const PRINT_READ: &'static str = "print.read";
pub const PRINT_CREATE: &'static str = "print.create";
pub const PRINT_UPDATE: &'static str = "print.update";
pub const PRINT_DELETE: &'static str = "print.delete";

pub const PLUGINS_READ: &'static str = "plugins.read";
pub const PLUGINS_MANAGE: &'static str = "plugins.manage";
pub const PLUGINS_EXECUTE: &'static str = "plugins.execute";

pub const NUMBERING_READ: &'static str = "numbering.read";
pub const NUMBERING_MANAGE: &'static str = "numbering.manage";

pub const MODULES_READ: &'static str = "modules.read";
pub const MODULES_MANAGE: &'static str = "modules.manage";

/// How far a command reaches: a company, one object, the metadata, the
/// platform, or nothing that needs a session.
#[derive(PartialEq, Eq, Structural, Clone, Copy, Debug)]
pub enum ScopeTag {
    Company,
    Object,
    Metadata,
    Platform,
    Public,
}

/// One row of the command table. An empty permission needs no check; an
/// empty audit code is not audited.
pub struct CommandMapping {
    pub command: &'static str,
    pub permission: &'static str,
    pub scope: ScopeTag,
    pub audit: &'static str,
}

/// Row `i` of the command table: the command, the default policy (by its
/// index in the default policy table) whose code it needs, if any, its scope,
/// and the action it is audited as, if any.
pub open spec fn command_row(i: usize) -> (Seq<char>, Option<usize>, ScopeTag, Option<AuditableAction>) {
    match i {
        0 => ("get_diagnostics"@, Some(0usize), ScopeTag::Platform, None),
        1 => ("connect_db"@, None, ScopeTag::Public, None),
        2 => ("authenticate"@, None, ScopeTag::Public, Some(AuditableAction::Login)),
        3 => ("validate_rhai_script"@, Some(35usize), ScopeTag::Company, None),
        4 => ("execute_rhai_script"@, Some(37usize), ScopeTag::Company, Some(AuditableAction::ExecuteScript)),
        5 => ("list_companies"@, Some(1usize), ScopeTag::Company, None),
        6 => ("get_company"@, Some(1usize), ScopeTag::Company, None),
        7 => ("create_company"@, Some(2usize), ScopeTag::Company, Some(AuditableAction::CreateCompany)),
        8 => ("update_company"@, Some(3usize), ScopeTag::Company, Some(AuditableAction::UpdateCompany)),
        9 => ("delete_company"@, Some(4usize), ScopeTag::Company, Some(AuditableAction::DeleteCompany)),
        10 => ("list_users"@, Some(5usize), ScopeTag::Company, None),
        11 => ("get_user"@, Some(5usize), ScopeTag::Company, None),
        12 => ("create_user"@, Some(6usize), ScopeTag::Company, Some(AuditableAction::CreateUser)),
        13 => ("update_user"@, Some(7usize), ScopeTag::Company, Some(AuditableAction::UpdateUser)),
        14 => ("delete_user"@, Some(8usize), ScopeTag::Company, Some(AuditableAction::DeleteUser)),
        15 => ("get_me"@, Some(0usize), ScopeTag::Platform, None),
        16 => ("switch_company"@, Some(0usize), ScopeTag::Platform, Some(AuditableAction::SwitchCompany)),
        17 => ("get_person"@, Some(5usize), ScopeTag::Company, None),
        18 => ("update_person"@, Some(7usize), ScopeTag::Company, Some(AuditableAction::UpdatePerson)),
        19 => ("list_user_profiles"@, Some(5usize), ScopeTag::Company, None),
        20 => ("add_user_profile"@, Some(6usize), ScopeTag::Company, Some(AuditableAction::AddUserProfile)),
        21 => ("update_user_profile"@, Some(7usize), ScopeTag::Company, Some(AuditableAction::UpdateUserProfile)),
        22 => ("remove_user_profile"@, Some(8usize), ScopeTag::Company, Some(AuditableAction::RemoveUserProfile)),
        23 => ("list_user_contacts"@, Some(13usize), ScopeTag::Company, None),
        24 => ("create_contact"@, Some(14usize), ScopeTag::Company, Some(AuditableAction::CreateContact)),
        25 => ("update_contact"@, Some(15usize), ScopeTag::Company, Some(AuditableAction::UpdateContact)),
        26 => ("delete_contact"@, Some(16usize), ScopeTag::Company, Some(AuditableAction::DeleteContact)),
        27 => ("get_contact_types"@, Some(13usize), ScopeTag::Company, None),
        28 => ("save_contact_types"@, Some(17usize), ScopeTag::Company, Some(AuditableAction::SaveSettings)),
        29 => ("list_user_certificates"@, Some(5usize), ScopeTag::Company, None),
        30 => ("deactivate_certificate"@, Some(7usize), ScopeTag::Company, Some(AuditableAction::DeactivateCertificate)),
        31 => ("list_roles"@, Some(9usize), ScopeTag::Company, None),
        32 => ("create_role"@, Some(10usize), ScopeTag::Company, Some(AuditableAction::CreateRole)),
        33 => ("update_role"@, Some(11usize), ScopeTag::Company, Some(AuditableAction::UpdateRole)),
        34 => ("delete_role"@, Some(12usize), ScopeTag::Company, Some(AuditableAction::DeleteRole)),
        35 => ("list_permission_policies"@, Some(9usize), ScopeTag::Company, None),
        36 => ("create_permission_policy"@, Some(10usize), ScopeTag::Company, Some(AuditableAction::CreatePermissionPolicy)),
        37 => ("delete_permission_policy"@, Some(12usize), ScopeTag::Company, Some(AuditableAction::DeletePermissionPolicy)),
        38 => ("get_my_permissions"@, Some(0usize), ScopeTag::Platform, None),
        39 => ("get_app_config"@, Some(39usize), ScopeTag::Platform, None),
        40 => ("save_app_config"@, Some(40usize), ScopeTag::Platform, Some(AuditableAction::SaveSettings)),
        41 => ("list_audit_logs"@, Some(38usize), ScopeTag::Company, None),
        42 => ("get_audit_entry"@, Some(38usize), ScopeTag::Company, None),
        43 => ("list_events"@, Some(18usize), ScopeTag::Company, None),
        44 => ("get_event"@, Some(18usize), ScopeTag::Company, None),
        45 => ("list_stream_events"@, Some(18usize), ScopeTag::Company, None),
        46 => ("list_entity_types"@, Some(24usize), ScopeTag::Metadata, None),
        47 => ("get_entity_type"@, Some(24usize), ScopeTag::Metadata, None),
        48 => ("create_entity_type"@, Some(25usize), ScopeTag::Metadata, None),
        49 => ("update_entity_type"@, Some(26usize), ScopeTag::Metadata, None),
        50 => ("delete_entity_type"@, Some(27usize), ScopeTag::Metadata, None),
        51 => ("list_entity_fields"@, Some(24usize), ScopeTag::Metadata, None),
        52 => ("create_entity_field"@, Some(25usize), ScopeTag::Metadata, None),
        53 => ("update_entity_field"@, Some(26usize), ScopeTag::Metadata, None),
        54 => ("delete_entity_field"@, Some(27usize), ScopeTag::Metadata, None),
        55 => ("list_entity_states"@, Some(24usize), ScopeTag::Metadata, None),
        56 => ("create_entity_state"@, Some(25usize), ScopeTag::Metadata, None),
        57 => ("update_entity_state"@, Some(26usize), ScopeTag::Metadata, None),
        58 => ("delete_entity_state"@, Some(27usize), ScopeTag::Metadata, None),
        59 => ("list_entity_transitions"@, Some(24usize), ScopeTag::Metadata, None),
        60 => ("create_entity_transition"@, Some(25usize), ScopeTag::Metadata, None),
        61 => ("update_entity_transition"@, Some(26usize), ScopeTag::Metadata, None),
        62 => ("delete_entity_transition"@, Some(27usize), ScopeTag::Metadata, None),
        63 => ("list_entity_forms"@, Some(24usize), ScopeTag::Metadata, None),
        64 => ("create_entity_form"@, Some(25usize), ScopeTag::Metadata, None),
        65 => ("update_entity_form"@, Some(26usize), ScopeTag::Metadata, None),
        66 => ("delete_entity_form"@, Some(27usize), ScopeTag::Metadata, None),
        67 => ("list_entity_actions"@, Some(24usize), ScopeTag::Metadata, None),
        68 => ("create_entity_action"@, Some(25usize), ScopeTag::Metadata, None),
        69 => ("update_entity_action"@, Some(26usize), ScopeTag::Metadata, None),
        70 => ("delete_entity_action"@, Some(27usize), ScopeTag::Metadata, None),
        71 => ("validate_entity_transition"@, Some(18usize), ScopeTag::Object, None),
        72 => ("execute_entity_action"@, Some(22usize), ScopeTag::Object, Some(AuditableAction::ExecuteEntityAction)),
        73 => ("list_crypto_certificates"@, Some(18usize), ScopeTag::Company, None),
        74 => ("sign_document"@, Some(22usize), ScopeTag::Company, Some(AuditableAction::SignDocument)),
        75 => ("verify_document_signature"@, Some(18usize), ScopeTag::Company, None),
        76 => ("list_objects"@, Some(18usize), ScopeTag::Company, None),
        77 => ("get_object"@, Some(18usize), ScopeTag::Company, None),
        78 => ("create_object"@, Some(19usize), ScopeTag::Company, Some(AuditableAction::CreateDocument)),
        79 => ("update_object"@, Some(20usize), ScopeTag::Object, Some(AuditableAction::UpdateDocument)),
        80 => ("post_object"@, Some(22usize), ScopeTag::Object, Some(AuditableAction::PostDocument)),
        81 => ("cancel_object"@, Some(23usize), ScopeTag::Object, Some(AuditableAction::CancelDocument)),
        82 => ("restore_object_version"@, Some(20usize), ScopeTag::Object, Some(AuditableAction::RestoreDocument)),
        83 => ("list_object_versions"@, Some(18usize), ScopeTag::Company, None),
        84 => ("wasm_load"@, Some(47usize), ScopeTag::Platform, None),
        85 => ("wasm_unload"@, Some(46usize), ScopeTag::Platform, None),
        86 => ("wasm_list"@, Some(45usize), ScopeTag::Platform, None),
        87 => ("plugin_call"@, Some(47usize), ScopeTag::Platform, None),
        88 => ("print_list_templates"@, Some(41usize), ScopeTag::Company, None),
        89 => ("print_get_template"@, Some(41usize), ScopeTag::Company, None),
        90 => ("print_create_template"@, Some(42usize), ScopeTag::Company, Some(AuditableAction::CreatePrintTemplate)),
        91 => ("print_update_template"@, Some(43usize), ScopeTag::Company, Some(AuditableAction::UpdatePrintTemplate)),
        92 => ("print_delete_template"@, Some(44usize), ScopeTag::Company, Some(AuditableAction::DeletePrintTemplate)),
        93 => ("print_render"@, Some(41usize), ScopeTag::Company, None),
        94 => ("numbering_list"@, Some(48usize), ScopeTag::Company, None),
        95 => ("numbering_get"@, Some(48usize), ScopeTag::Company, None),
        96 => ("numbering_update_format"@, Some(49usize), ScopeTag::Company, Some(AuditableAction::SaveSettings)),
        97 => ("numbering_reset"@, Some(49usize), ScopeTag::Company, Some(AuditableAction::SaveSettings)),
        98 => ("modules_list"@, Some(50usize), ScopeTag::Platform, None),
        99 => ("modules_get"@, Some(50usize), ScopeTag::Platform, None),
        100 => ("modules_install"@, Some(51usize), ScopeTag::Platform, None),
        101 => ("modules_uninstall"@, Some(51usize), ScopeTag::Platform, None),
        102 => ("modules_enable"@, Some(51usize), ScopeTag::Platform, None),
        103 => ("modules_disable"@, Some(51usize), ScopeTag::Platform, None),
        104 => ("modules_update_settings"@, Some(51usize), ScopeTag::Platform, None),
        _ => (Seq::empty(), None, ScopeTag::Public, None),
    }
}

/// The permission code of row `i` (empty: no check).
pub open spec fn command_permission(i: usize) -> Seq<char> {
    match command_row(i).1 {
        Some(k) => default_policy_row(k).0,
        None => Seq::empty(),
    }
}

/// The audit code of row `i` (empty: not audited).
pub open spec fn command_audit(i: usize) -> Seq<char> {
    match command_row(i).3 {
        Some(a) => action_code(a),
        None => Seq::empty(),
    }
}

/// The number of commands in the table.
pub open spec fn command_count() -> usize {
    105
}

fn command_row_exec(i: usize) -> (r: CommandMapping)
    requires
        i < 105,
    ensures
        r.command@ == command_row(i).0,
        r.permission@ == command_permission(i),
        r.scope == command_row(i).2,
        r.audit@ == command_audit(i),
{
    proof { reveal_strlit(""); }
    match i {
        0 => CommandMapping { command: "get_diagnostics", permission: PLATFORM_ACCESS, scope: ScopeTag::Platform, audit: "" },
        1 => CommandMapping { command: "connect_db", permission: "", scope: ScopeTag::Public, audit: "" },
        2 => CommandMapping { command: "authenticate", permission: "", scope: ScopeTag::Public, audit: "login" },
        3 => CommandMapping { command: "validate_rhai_script", permission: SCRIPTS_READ, scope: ScopeTag::Company, audit: "" },
        4 => CommandMapping { command: "execute_rhai_script", permission: SCRIPTS_EXECUTE, scope: ScopeTag::Company, audit: "execute_script" },
        5 => CommandMapping { command: "list_companies", permission: COMPANIES_READ, scope: ScopeTag::Company, audit: "" },
        6 => CommandMapping { command: "get_company", permission: COMPANIES_READ, scope: ScopeTag::Company, audit: "" },
        7 => CommandMapping { command: "create_company", permission: COMPANIES_CREATE, scope: ScopeTag::Company, audit: "create_company" },
        8 => CommandMapping { command: "update_company", permission: COMPANIES_UPDATE, scope: ScopeTag::Company, audit: "update_company" },
        9 => CommandMapping { command: "delete_company", permission: COMPANIES_DELETE, scope: ScopeTag::Company, audit: "delete_company" },
        10 => CommandMapping { command: "list_users", permission: USERS_READ, scope: ScopeTag::Company, audit: "" },
        11 => CommandMapping { command: "get_user", permission: USERS_READ, scope: ScopeTag::Company, audit: "" },
        12 => CommandMapping { command: "create_user", permission: USERS_CREATE, scope: ScopeTag::Company, audit: "create_user" },
        13 => CommandMapping { command: "update_user", permission: USERS_UPDATE, scope: ScopeTag::Company, audit: "update_user" },
        14 => CommandMapping { command: "delete_user", permission: USERS_DELETE, scope: ScopeTag::Company, audit: "delete_user" },
        15 => CommandMapping { command: "get_me", permission: PLATFORM_ACCESS, scope: ScopeTag::Platform, audit: "" },
        16 => CommandMapping { command: "switch_company", permission: PLATFORM_ACCESS, scope: ScopeTag::Platform, audit: "switch_company" },
        17 => CommandMapping { command: "get_person", permission: USERS_READ, scope: ScopeTag::Company, audit: "" },
        18 => CommandMapping { command: "update_person", permission: USERS_UPDATE, scope: ScopeTag::Company, audit: "update_person" },
        19 => CommandMapping { command: "list_user_profiles", permission: USERS_READ, scope: ScopeTag::Company, audit: "" },
        20 => CommandMapping { command: "add_user_profile", permission: USERS_CREATE, scope: ScopeTag::Company, audit: "add_user_profile" },
        21 => CommandMapping { command: "update_user_profile", permission: USERS_UPDATE, scope: ScopeTag::Company, audit: "update_user_profile" },
        22 => CommandMapping { command: "remove_user_profile", permission: USERS_DELETE, scope: ScopeTag::Company, audit: "remove_user_profile" },
        23 => CommandMapping { command: "list_user_contacts", permission: CONTACTS_READ, scope: ScopeTag::Company, audit: "" },
        24 => CommandMapping { command: "create_contact", permission: CONTACTS_CREATE, scope: ScopeTag::Company, audit: "create_contact" },
        25 => CommandMapping { command: "update_contact", permission: CONTACTS_UPDATE, scope: ScopeTag::Company, audit: "update_contact" },
        26 => CommandMapping { command: "delete_contact", permission: CONTACTS_DELETE, scope: ScopeTag::Company, audit: "delete_contact" },
        27 => CommandMapping { command: "get_contact_types", permission: CONTACTS_READ, scope: ScopeTag::Company, audit: "" },
        28 => CommandMapping { command: "save_contact_types", permission: CONTACTS_MANAGE, scope: ScopeTag::Company, audit: "save_settings" },
        29 => CommandMapping { command: "list_user_certificates", permission: USERS_READ, scope: ScopeTag::Company, audit: "" },
        30 => CommandMapping { command: "deactivate_certificate", permission: USERS_UPDATE, scope: ScopeTag::Company, audit: "deactivate_certificate" },
        31 => CommandMapping { command: "list_roles", permission: ROLES_READ, scope: ScopeTag::Company, audit: "" },
        32 => CommandMapping { command: "create_role", permission: ROLES_CREATE, scope: ScopeTag::Company, audit: "create_role" },
        33 => CommandMapping { command: "update_role", permission: ROLES_UPDATE, scope: ScopeTag::Company, audit: "update_role" },
        34 => CommandMapping { command: "delete_role", permission: ROLES_DELETE, scope: ScopeTag::Company, audit: "delete_role" },
        35 => CommandMapping { command: "list_permission_policies", permission: ROLES_READ, scope: ScopeTag::Company, audit: "" },
        36 => CommandMapping { command: "create_permission_policy", permission: ROLES_CREATE, scope: ScopeTag::Company, audit: "create_permission_policy" },
        37 => CommandMapping { command: "delete_permission_policy", permission: ROLES_DELETE, scope: ScopeTag::Company, audit: "delete_permission_policy" },
        38 => CommandMapping { command: "get_my_permissions", permission: PLATFORM_ACCESS, scope: ScopeTag::Platform, audit: "" },
        39 => CommandMapping { command: "get_app_config", permission: SETTINGS_READ, scope: ScopeTag::Platform, audit: "" },
        40 => CommandMapping { command: "save_app_config", permission: SETTINGS_MANAGE, scope: ScopeTag::Platform, audit: "save_settings" },
        41 => CommandMapping { command: "list_audit_logs", permission: AUDIT_READ, scope: ScopeTag::Company, audit: "" },
        42 => CommandMapping { command: "get_audit_entry", permission: AUDIT_READ, scope: ScopeTag::Company, audit: "" },
        43 => CommandMapping { command: "list_events", permission: DOCUMENTS_READ, scope: ScopeTag::Company, audit: "" },
        44 => CommandMapping { command: "get_event", permission: DOCUMENTS_READ, scope: ScopeTag::Company, audit: "" },
        45 => CommandMapping { command: "list_stream_events", permission: DOCUMENTS_READ, scope: ScopeTag::Company, audit: "" },
        46 => CommandMapping { command: "list_entity_types", permission: METADATA_READ, scope: ScopeTag::Metadata, audit: "" },
        47 => CommandMapping { command: "get_entity_type", permission: METADATA_READ, scope: ScopeTag::Metadata, audit: "" },
        48 => CommandMapping { command: "create_entity_type", permission: METADATA_CREATE, scope: ScopeTag::Metadata, audit: "" },
        49 => CommandMapping { command: "update_entity_type", permission: METADATA_UPDATE, scope: ScopeTag::Metadata, audit: "" },
        50 => CommandMapping { command: "delete_entity_type", permission: METADATA_DELETE, scope: ScopeTag::Metadata, audit: "" },
        51 => CommandMapping { command: "list_entity_fields", permission: METADATA_READ, scope: ScopeTag::Metadata, audit: "" },
        52 => CommandMapping { command: "create_entity_field", permission: METADATA_CREATE, scope: ScopeTag::Metadata, audit: "" },
        53 => CommandMapping { command: "update_entity_field", permission: METADATA_UPDATE, scope: ScopeTag::Metadata, audit: "" },
        54 => CommandMapping { command: "delete_entity_field", permission: METADATA_DELETE, scope: ScopeTag::Metadata, audit: "" },
        55 => CommandMapping { command: "list_entity_states", permission: METADATA_READ, scope: ScopeTag::Metadata, audit: "" },
        56 => CommandMapping { command: "create_entity_state", permission: METADATA_CREATE, scope: ScopeTag::Metadata, audit: "" },
        57 => CommandMapping { command: "update_entity_state", permission: METADATA_UPDATE, scope: ScopeTag::Metadata, audit: "" },
        58 => CommandMapping { command: "delete_entity_state", permission: METADATA_DELETE, scope: ScopeTag::Metadata, audit: "" },
        59 => CommandMapping { command: "list_entity_transitions", permission: METADATA_READ, scope: ScopeTag::Metadata, audit: "" },
        60 => CommandMapping { command: "create_entity_transition", permission: METADATA_CREATE, scope: ScopeTag::Metadata, audit: "" },
        61 => CommandMapping { command: "update_entity_transition", permission: METADATA_UPDATE, scope: ScopeTag::Metadata, audit: "" },
        62 => CommandMapping { command: "delete_entity_transition", permission: METADATA_DELETE, scope: ScopeTag::Metadata, audit: "" },
        63 => CommandMapping { command: "list_entity_forms", permission: METADATA_READ, scope: ScopeTag::Metadata, audit: "" },
        64 => CommandMapping { command: "create_entity_form", permission: METADATA_CREATE, scope: ScopeTag::Metadata, audit: "" },
        65 => CommandMapping { command: "update_entity_form", permission: METADATA_UPDATE, scope: ScopeTag::Metadata, audit: "" },
        66 => CommandMapping { command: "delete_entity_form", permission: METADATA_DELETE, scope: ScopeTag::Metadata, audit: "" },
        67 => CommandMapping { command: "list_entity_actions", permission: METADATA_READ, scope: ScopeTag::Metadata, audit: "" },
        68 => CommandMapping { command: "create_entity_action", permission: METADATA_CREATE, scope: ScopeTag::Metadata, audit: "" },
        69 => CommandMapping { command: "update_entity_action", permission: METADATA_UPDATE, scope: ScopeTag::Metadata, audit: "" },
        70 => CommandMapping { command: "delete_entity_action", permission: METADATA_DELETE, scope: ScopeTag::Metadata, audit: "" },
        71 => CommandMapping { command: "validate_entity_transition", permission: DOCUMENTS_READ, scope: ScopeTag::Object, audit: "" },
        72 => CommandMapping { command: "execute_entity_action", permission: DOCUMENTS_APPROVE, scope: ScopeTag::Object, audit: "execute_entity_action" },
        73 => CommandMapping { command: "list_crypto_certificates", permission: DOCUMENTS_READ, scope: ScopeTag::Company, audit: "" },
        74 => CommandMapping { command: "sign_document", permission: DOCUMENTS_APPROVE, scope: ScopeTag::Company, audit: "sign_document" },
        75 => CommandMapping { command: "verify_document_signature", permission: DOCUMENTS_READ, scope: ScopeTag::Company, audit: "" },
        76 => CommandMapping { command: "list_objects", permission: DOCUMENTS_READ, scope: ScopeTag::Company, audit: "" },
        77 => CommandMapping { command: "get_object", permission: DOCUMENTS_READ, scope: ScopeTag::Company, audit: "" },
        78 => CommandMapping { command: "create_object", permission: DOCUMENTS_CREATE, scope: ScopeTag::Company, audit: "create_document" },
        79 => CommandMapping { command: "update_object", permission: DOCUMENTS_UPDATE, scope: ScopeTag::Object, audit: "update_document" },
        80 => CommandMapping { command: "post_object", permission: DOCUMENTS_APPROVE, scope: ScopeTag::Object, audit: "post_document" },
        81 => CommandMapping { command: "cancel_object", permission: DOCUMENTS_CANCEL, scope: ScopeTag::Object, audit: "cancel_document" },
        82 => CommandMapping { command: "restore_object_version", permission: DOCUMENTS_UPDATE, scope: ScopeTag::Object, audit: "restore_document" },
        83 => CommandMapping { command: "list_object_versions", permission: DOCUMENTS_READ, scope: ScopeTag::Company, audit: "" },
        84 => CommandMapping { command: "wasm_load", permission: PLUGINS_EXECUTE, scope: ScopeTag::Platform, audit: "" },
        85 => CommandMapping { command: "wasm_unload", permission: PLUGINS_MANAGE, scope: ScopeTag::Platform, audit: "" },
        86 => CommandMapping { command: "wasm_list", permission: PLUGINS_READ, scope: ScopeTag::Platform, audit: "" },
        87 => CommandMapping { command: "plugin_call", permission: PLUGINS_EXECUTE, scope: ScopeTag::Platform, audit: "" },
        88 => CommandMapping { command: "print_list_templates", permission: PRINT_READ, scope: ScopeTag::Company, audit: "" },
        89 => CommandMapping { command: "print_get_template", permission: PRINT_READ, scope: ScopeTag::Company, audit: "" },
        90 => CommandMapping { command: "print_create_template", permission: PRINT_CREATE, scope: ScopeTag::Company, audit: "create_print_template" },
        91 => CommandMapping { command: "print_update_template", permission: PRINT_UPDATE, scope: ScopeTag::Company, audit: "update_print_template" },
        92 => CommandMapping { command: "print_delete_template", permission: PRINT_DELETE, scope: ScopeTag::Company, audit: "delete_print_template" },
        93 => CommandMapping { command: "print_render", permission: PRINT_READ, scope: ScopeTag::Company, audit: "" },
        94 => CommandMapping { command: "numbering_list", permission: NUMBERING_READ, scope: ScopeTag::Company, audit: "" },
        95 => CommandMapping { command: "numbering_get", permission: NUMBERING_READ, scope: ScopeTag::Company, audit: "" },
        96 => CommandMapping { command: "numbering_update_format", permission: NUMBERING_MANAGE, scope: ScopeTag::Company, audit: "save_settings" },
        97 => CommandMapping { command: "numbering_reset", permission: NUMBERING_MANAGE, scope: ScopeTag::Company, audit: "save_settings" },
        98 => CommandMapping { command: "modules_list", permission: MODULES_READ, scope: ScopeTag::Platform, audit: "" },
        99 => CommandMapping { command: "modules_get", permission: MODULES_READ, scope: ScopeTag::Platform, audit: "" },
        100 => CommandMapping { command: "modules_install", permission: MODULES_MANAGE, scope: ScopeTag::Platform, audit: "" },
        101 => CommandMapping { command: "modules_uninstall", permission: MODULES_MANAGE, scope: ScopeTag::Platform, audit: "" },
        102 => CommandMapping { command: "modules_enable", permission: MODULES_MANAGE, scope: ScopeTag::Platform, audit: "" },
        103 => CommandMapping { command: "modules_disable", permission: MODULES_MANAGE, scope: ScopeTag::Platform, audit: "" },
        104 => CommandMapping { command: "modules_update_settings", permission: MODULES_MANAGE, scope: ScopeTag::Platform, audit: "" },
        _ => CommandMapping { command: "", permission: "", scope: ScopeTag::Public, audit: "" },
    }
}

/// Every permission the table asks for is the code of a default policy.
pub proof fn lemma_command_permissions_are_policies()
    ensures
        forall|i: usize| i < command_count() ==> ((#[trigger] command_row(i)).1 matches Some(k)
            ==> k < 61 && default_policy_row(k).0 == command_permission(i)),
        forall|i: usize| i < command_count() ==> #[trigger] command_permission(i).len() == 0
            || exists|k: usize| k < 61 && default_policy_row(k).0 == command_permission(i),
{
    assert forall|i: usize| i < command_count() implies ((#[trigger] command_row(i)).1 matches Some(k)
        ==> k < 61 && default_policy_row(k).0 == command_permission(i)) by {}
    assert forall|i: usize| i < command_count() implies #[trigger] command_permission(i).len() == 0
        || exists|k: usize| k < 61 && default_policy_row(k).0 == command_permission(i) by {
        if let Some(k) = command_row(i).1 {
            assert(k < 61 && default_policy_row(k).0 == command_permission(i));
        }
    }
}

/// Every audit code of the table names an audited action.
pub proof fn lemma_command_audits_are_actions()
    ensures
        forall|i: usize| i < command_count() ==> #[trigger] command_audit(i).len() == 0
            || exists|a: AuditableAction| action_code(a) == command_audit(i),
{
    assert forall|i: usize| i < command_count() implies #[trigger] command_audit(i).len() == 0
        || exists|a: AuditableAction| action_code(a) == command_audit(i) by {
        if let Some(a) = command_row(i).3 {
            assert(action_code(a) == command_audit(i));
        }
    }
}

/// A command that only reads (its permission ends in `.read`) is not audited.
#[verifier::rlimit(100)]
pub proof fn lemma_read_commands_not_audited()
    ensures
        forall|i: usize| i < command_count() && ends_with(#[trigger] command_permission(i), ".read"@)
            ==> command_row(i).3 is None,
{
    reveal_strlit(".read");
    reveal_strlit("platform.access");
    reveal_strlit("companies.read");
    reveal_strlit("companies.create");
    reveal_strlit("companies.update");
    reveal_strlit("companies.delete");
    reveal_strlit("users.read");
    reveal_strlit("users.create");
    reveal_strlit("users.update");
    reveal_strlit("users.delete");
    reveal_strlit("roles.read");
    reveal_strlit("roles.create");
    reveal_strlit("roles.update");
    reveal_strlit("roles.delete");
    reveal_strlit("contacts.read");
    reveal_strlit("contacts.create");
    reveal_strlit("contacts.update");
    reveal_strlit("contacts.delete");
    reveal_strlit("contacts.manage");
    reveal_strlit("documents.read");
    reveal_strlit("documents.create");
    reveal_strlit("documents.update");
    reveal_strlit("documents.delete");
    reveal_strlit("documents.approve");
    reveal_strlit("documents.cancel");
    reveal_strlit("metadata.read");
    reveal_strlit("metadata.create");
    reveal_strlit("metadata.update");
    reveal_strlit("metadata.delete");
    reveal_strlit("catalogs.read");
    reveal_strlit("catalogs.create");
    reveal_strlit("catalogs.update");
    reveal_strlit("catalogs.delete");
    reveal_strlit("reports.read");
    reveal_strlit("reports.create");
    reveal_strlit("reports.export");
    reveal_strlit("scripts.read");
    reveal_strlit("scripts.create");
    reveal_strlit("scripts.execute");
    reveal_strlit("audit.read");
    reveal_strlit("settings.read");
    reveal_strlit("settings.manage");
    reveal_strlit("print.read");
    reveal_strlit("print.create");
    reveal_strlit("print.update");
    reveal_strlit("print.delete");
    reveal_strlit("plugins.read");
    reveal_strlit("plugins.manage");
    reveal_strlit("plugins.execute");
    reveal_strlit("numbering.read");
    reveal_strlit("numbering.manage");
    reveal_strlit("modules.read");
    reveal_strlit("modules.manage");
    reveal_strlit("devices.read");
    reveal_strlit("devices.manage");
    reveal_strlit("devices.use");
    reveal_strlit("stock.read");
    reveal_strlit("stock.use");
    reveal_strlit("stock.manage");
    reveal_strlit("accounting.read");
    reveal_strlit("accounting.post");
    assert(".read"@.len() == 5 && ".read"@[0] == '.' && ".read"@[1] == 'r' && ".read"@[2] == 'e' && ".read"@[3] == 'a' && ".read"@[4] == 'd');
    assert("platform.access"@.len() == 15);
    assert("companies.read"@.len() == 14);
    assert("companies.create"@.len() == 16);
    assert("companies.update"@.len() == 16);
    assert("companies.delete"@.len() == 16);
    assert("users.read"@.len() == 10);
    assert("users.create"@.len() == 12);
    assert("users.update"@.len() == 12);
    assert("users.delete"@.len() == 12);
    assert("roles.read"@.len() == 10);
    assert("roles.create"@.len() == 12);
    assert("roles.update"@.len() == 12);
    assert("roles.delete"@.len() == 12);
    assert("contacts.read"@.len() == 13);
    assert("contacts.create"@.len() == 15);
    assert("contacts.update"@.len() == 15);
    assert("contacts.delete"@.len() == 15);
    assert("contacts.manage"@.len() == 15);
    assert("documents.read"@.len() == 14);
    assert("documents.create"@.len() == 16);
    assert("documents.update"@.len() == 16);
    assert("documents.delete"@.len() == 16);
    assert("documents.approve"@.len() == 17);
    assert("documents.cancel"@.len() == 16);
    assert("metadata.read"@.len() == 13);
    assert("metadata.create"@.len() == 15);
    assert("metadata.update"@.len() == 15);
    assert("metadata.delete"@.len() == 15);
    assert("catalogs.read"@.len() == 13);
    assert("catalogs.create"@.len() == 15);
    assert("catalogs.update"@.len() == 15);
    assert("catalogs.delete"@.len() == 15);
    assert("reports.read"@.len() == 12);
    assert("reports.create"@.len() == 14);
    assert("reports.export"@.len() == 14);
    assert("scripts.read"@.len() == 12);
    assert("scripts.create"@.len() == 14);
    assert("scripts.execute"@.len() == 15);
    assert("audit.read"@.len() == 10);
    assert("settings.read"@.len() == 13);
    assert("settings.manage"@.len() == 15);
    assert("print.read"@.len() == 10);
    assert("print.create"@.len() == 12);
    assert("print.update"@.len() == 12);
    assert("print.delete"@.len() == 12);
    assert("plugins.read"@.len() == 12);
    assert("plugins.manage"@.len() == 14);
    assert("plugins.execute"@.len() == 15);
    assert("numbering.read"@.len() == 14);
    assert("numbering.manage"@.len() == 16);
    assert("modules.read"@.len() == 12);
    assert("modules.manage"@.len() == 14);
    assert("devices.read"@.len() == 12);
    assert("devices.manage"@.len() == 14);
    assert("devices.use"@.len() == 11);
    assert("stock.read"@.len() == 10);
    assert("stock.use"@.len() == 9);
    assert("stock.manage"@.len() == 12);
    assert("accounting.read"@.len() == 15);
    assert("accounting.post"@.len() == 15);
    assert forall|i: usize| i < command_count() && ends_with(#[trigger] command_permission(i), ".read"@)
        implies command_row(i).3 is None by {
        if i == 0 {}
        else if i == 1 {}
        else if i == 2 {}
        else if i == 3 {}
        else if i == 4 {}
        else if i == 5 {}
        else if i == 6 {}
        else if i == 7 {}
        else if i == 8 {}
        else if i == 9 {}
        else if i == 10 {}
        else if i == 11 {}
        else if i == 12 {}
        else if i == 13 {}
        else if i == 14 {}
        else if i == 15 {}
        else if i == 16 {}
        else if i == 17 {}
        else if i == 18 {}
        else if i == 19 {}
        else if i == 20 {}
        else if i == 21 {}
        else if i == 22 {}
        else if i == 23 {}
        else if i == 24 {}
        else if i == 25 {}
        else if i == 26 {}
        else if i == 27 {}
        else if i == 28 {}
        else if i == 29 {}
        else if i == 30 {}
        else if i == 31 {}
        else if i == 32 {}
        else if i == 33 {}
        else if i == 34 {}
        else if i == 35 {}
        else if i == 36 {}
        else if i == 37 {}
        else if i == 38 {}
        else if i == 39 {}
        else if i == 40 {}
        else if i == 41 {}
        else if i == 42 {}
        else if i == 43 {}
        else if i == 44 {}
        else if i == 45 {}
        else if i == 46 {}
        else if i == 47 {}
        else if i == 48 {}
        else if i == 49 {}
        else if i == 50 {}
        else if i == 51 {}
        else if i == 52 {}
        else if i == 53 {}
        else if i == 54 {}
        else if i == 55 {}
        else if i == 56 {}
        else if i == 57 {}
        else if i == 58 {}
        else if i == 59 {}
        else if i == 60 {}
        else if i == 61 {}
        else if i == 62 {}
        else if i == 63 {}
        else if i == 64 {}
        else if i == 65 {}
        else if i == 66 {}
        else if i == 67 {}
        else if i == 68 {}
        else if i == 69 {}
        else if i == 70 {}
        else if i == 71 {}
        else if i == 72 {}
        else if i == 73 {}
        else if i == 74 {}
        else if i == 75 {}
        else if i == 76 {}
        else if i == 77 {}
        else if i == 78 {}
        else if i == 79 {}
        else if i == 80 {}
        else if i == 81 {}
        else if i == 82 {}
        else if i == 83 {}
        else if i == 84 {}
        else if i == 85 {}
        else if i == 86 {}
        else if i == 87 {}
        else if i == 88 {}
        else if i == 89 {}
        else if i == 90 {}
        else if i == 91 {}
        else if i == 92 {}
        else if i == 93 {}
        else if i == 94 {}
        else if i == 95 {}
        else if i == 96 {}
        else if i == 97 {}
        else if i == 98 {}
        else if i == 99 {}
        else if i == 100 {}
        else if i == 101 {}
        else if i == 102 {}
        else if i == 103 {}
        else if i == 104 {}
    }
}

/// The position of a command in the table (`command_count()` when absent).
pub open spec fn command_index(name: Seq<char>) -> int {
    if name == "get_diagnostics"@ { 0 }
    else if name == "connect_db"@ { 1 }
    else if name == "authenticate"@ { 2 }
    else if name == "validate_rhai_script"@ { 3 }
    else if name == "execute_rhai_script"@ { 4 }
    else if name == "list_companies"@ { 5 }
    else if name == "get_company"@ { 6 }
    else if name == "create_company"@ { 7 }
    else if name == "update_company"@ { 8 }
    else if name == "delete_company"@ { 9 }
    else if name == "list_users"@ { 10 }
    else if name == "get_user"@ { 11 }
    else if name == "create_user"@ { 12 }
    else if name == "update_user"@ { 13 }
    else if name == "delete_user"@ { 14 }
    else if name == "get_me"@ { 15 }
    else if name == "switch_company"@ { 16 }
    else if name == "get_person"@ { 17 }
    else if name == "update_person"@ { 18 }
    else if name == "list_user_profiles"@ { 19 }
    else if name == "add_user_profile"@ { 20 }
    else if name == "update_user_profile"@ { 21 }
    else if name == "remove_user_profile"@ { 22 }
    else if name == "list_user_contacts"@ { 23 }
    else if name == "create_contact"@ { 24 }
    else if name == "update_contact"@ { 25 }
    else if name == "delete_contact"@ { 26 }
    else if name == "get_contact_types"@ { 27 }
    else if name == "save_contact_types"@ { 28 }
    else if name == "list_user_certificates"@ { 29 }
    else if name == "deactivate_certificate"@ { 30 }
    else if name == "list_roles"@ { 31 }
    else if name == "create_role"@ { 32 }
    else if name == "update_role"@ { 33 }
    else if name == "delete_role"@ { 34 }
    else if name == "list_permission_policies"@ { 35 }
    else if name == "create_permission_policy"@ { 36 }
    else if name == "delete_permission_policy"@ { 37 }
    else if name == "get_my_permissions"@ { 38 }
    else if name == "get_app_config"@ { 39 }
    else if name == "save_app_config"@ { 40 }
    else if name == "list_audit_logs"@ { 41 }
    else if name == "get_audit_entry"@ { 42 }
    else if name == "list_events"@ { 43 }
    else if name == "get_event"@ { 44 }
    else if name == "list_stream_events"@ { 45 }
    else if name == "list_entity_types"@ { 46 }
    else if name == "get_entity_type"@ { 47 }
    else if name == "create_entity_type"@ { 48 }
    else if name == "update_entity_type"@ { 49 }
    else if name == "delete_entity_type"@ { 50 }
    else if name == "list_entity_fields"@ { 51 }
    else if name == "create_entity_field"@ { 52 }
    else if name == "update_entity_field"@ { 53 }
    else if name == "delete_entity_field"@ { 54 }
    else if name == "list_entity_states"@ { 55 }
    else if name == "create_entity_state"@ { 56 }
    else if name == "update_entity_state"@ { 57 }
    else if name == "delete_entity_state"@ { 58 }
    else if name == "list_entity_transitions"@ { 59 }
    else if name == "create_entity_transition"@ { 60 }
    else if name == "update_entity_transition"@ { 61 }
    else if name == "delete_entity_transition"@ { 62 }
    else if name == "list_entity_forms"@ { 63 }
    else if name == "create_entity_form"@ { 64 }
    else if name == "update_entity_form"@ { 65 }
    else if name == "delete_entity_form"@ { 66 }
    else if name == "list_entity_actions"@ { 67 }
    else if name == "create_entity_action"@ { 68 }
    else if name == "update_entity_action"@ { 69 }
    else if name == "delete_entity_action"@ { 70 }
    else if name == "validate_entity_transition"@ { 71 }
    else if name == "execute_entity_action"@ { 72 }
    else if name == "list_crypto_certificates"@ { 73 }
    else if name == "sign_document"@ { 74 }
    else if name == "verify_document_signature"@ { 75 }
    else if name == "list_objects"@ { 76 }
    else if name == "get_object"@ { 77 }
    else if name == "create_object"@ { 78 }
    else if name == "update_object"@ { 79 }
    else if name == "post_object"@ { 80 }
    else if name == "cancel_object"@ { 81 }
    else if name == "restore_object_version"@ { 82 }
    else if name == "list_object_versions"@ { 83 }
    else if name == "wasm_load"@ { 84 }
    else if name == "wasm_unload"@ { 85 }
    else if name == "wasm_list"@ { 86 }
    else if name == "plugin_call"@ { 87 }
    else if name == "print_list_templates"@ { 88 }
    else if name == "print_get_template"@ { 89 }
    else if name == "print_create_template"@ { 90 }
    else if name == "print_update_template"@ { 91 }
    else if name == "print_delete_template"@ { 92 }
    else if name == "print_render"@ { 93 }
    else if name == "numbering_list"@ { 94 }
    else if name == "numbering_get"@ { 95 }
    else if name == "numbering_update_format"@ { 96 }
    else if name == "numbering_reset"@ { 97 }
    else if name == "modules_list"@ { 98 }
    else if name == "modules_get"@ { 99 }
    else if name == "modules_install"@ { 100 }
    else if name == "modules_uninstall"@ { 101 }
    else if name == "modules_enable"@ { 102 }
    else if name == "modules_disable"@ { 103 }
    else if name == "modules_update_settings"@ { 104 }
    else { 105 }
}

#[verifier::rlimit(100)]
proof fn lemma_command_index()
    ensures
        forall|i: usize| i < command_count() ==> command_index(#[trigger] command_row(i).0) == i,
{
    reveal_strlit("get_diagnostics");
    reveal_strlit("connect_db");
    reveal_strlit("authenticate");
    reveal_strlit("validate_rhai_script");
    reveal_strlit("execute_rhai_script");
    reveal_strlit("list_companies");
    reveal_strlit("get_company");
    reveal_strlit("create_company");
    reveal_strlit("update_company");
    reveal_strlit("delete_company");
    reveal_strlit("list_users");
    reveal_strlit("get_user");
    reveal_strlit("create_user");
    reveal_strlit("update_user");
    reveal_strlit("delete_user");
    reveal_strlit("get_me");
    reveal_strlit("switch_company");
    reveal_strlit("get_person");
    reveal_strlit("update_person");
    reveal_strlit("list_user_profiles");
    reveal_strlit("add_user_profile");
    reveal_strlit("update_user_profile");
    reveal_strlit("remove_user_profile");
    reveal_strlit("list_user_contacts");
    reveal_strlit("create_contact");
    reveal_strlit("update_contact");
    reveal_strlit("delete_contact");
    reveal_strlit("get_contact_types");
    reveal_strlit("save_contact_types");
    reveal_strlit("list_user_certificates");
    reveal_strlit("deactivate_certificate");
    reveal_strlit("list_roles");
    reveal_strlit("create_role");
    reveal_strlit("update_role");
    reveal_strlit("delete_role");
    reveal_strlit("list_permission_policies");
    reveal_strlit("create_permission_policy");
    reveal_strlit("delete_permission_policy");
    reveal_strlit("get_my_permissions");
    reveal_strlit("get_app_config");
    reveal_strlit("save_app_config");
    reveal_strlit("list_audit_logs");
    reveal_strlit("get_audit_entry");
    reveal_strlit("list_events");
    reveal_strlit("get_event");
    reveal_strlit("list_stream_events");
    reveal_strlit("list_entity_types");
    reveal_strlit("get_entity_type");
    reveal_strlit("create_entity_type");
    reveal_strlit("update_entity_type");
    reveal_strlit("delete_entity_type");
    reveal_strlit("list_entity_fields");
    reveal_strlit("create_entity_field");
    reveal_strlit("update_entity_field");
    reveal_strlit("delete_entity_field");
    reveal_strlit("list_entity_states");
    reveal_strlit("create_entity_state");
    reveal_strlit("update_entity_state");
    reveal_strlit("delete_entity_state");
    reveal_strlit("list_entity_transitions");
    reveal_strlit("create_entity_transition");
    reveal_strlit("update_entity_transition");
    reveal_strlit("delete_entity_transition");
    reveal_strlit("list_entity_forms");
    reveal_strlit("create_entity_form");
    reveal_strlit("update_entity_form");
    reveal_strlit("delete_entity_form");
    reveal_strlit("list_entity_actions");
    reveal_strlit("create_entity_action");
    reveal_strlit("update_entity_action");
    reveal_strlit("delete_entity_action");
    reveal_strlit("validate_entity_transition");
    reveal_strlit("execute_entity_action");
    reveal_strlit("list_crypto_certificates");
    reveal_strlit("sign_document");
    reveal_strlit("verify_document_signature");
    reveal_strlit("list_objects");
    reveal_strlit("get_object");
    reveal_strlit("create_object");
    reveal_strlit("update_object");
    reveal_strlit("post_object");
    reveal_strlit("cancel_object");
    reveal_strlit("restore_object_version");
    reveal_strlit("list_object_versions");
    reveal_strlit("wasm_load");
    reveal_strlit("wasm_unload");
    reveal_strlit("wasm_list");
    reveal_strlit("plugin_call");
    reveal_strlit("print_list_templates");
    reveal_strlit("print_get_template");
    reveal_strlit("print_create_template");
    reveal_strlit("print_update_template");
    reveal_strlit("print_delete_template");
    reveal_strlit("print_render");
    reveal_strlit("numbering_list");
    reveal_strlit("numbering_get");
    reveal_strlit("numbering_update_format");
    reveal_strlit("numbering_reset");
    reveal_strlit("modules_list");
    reveal_strlit("modules_get");
    reveal_strlit("modules_install");
    reveal_strlit("modules_uninstall");
    reveal_strlit("modules_enable");
    reveal_strlit("modules_disable");
    reveal_strlit("modules_update_settings");
    assert("get_diagnostics"@.len() == 15 && "get_diagnostics"@[0] == 'g' && "get_diagnostics"@[4] == 'd');
    assert("connect_db"@.len() == 10 && "connect_db"@[0] == 'c');
    assert("authenticate"@.len() == 12 && "authenticate"@[0] == 'a');
    assert("validate_rhai_script"@.len() == 20 && "validate_rhai_script"@[0] == 'v');
    assert("execute_rhai_script"@.len() == 19 && "execute_rhai_script"@[0] == 'e');
    assert("list_companies"@.len() == 14 && "list_companies"@[0] == 'l');
    assert("get_company"@.len() == 11 && "get_company"@[0] == 'g');
    assert("create_company"@.len() == 14 && "create_company"@[0] == 'c' && "create_company"@[9] == 'm');
    assert("update_company"@.len() == 14 && "update_company"@[0] == 'u' && "update_company"@[9] == 'm');
    assert("delete_company"@.len() == 14 && "delete_company"@[0] == 'd' && "delete_company"@[9] == 'm');
    assert("list_users"@.len() == 10 && "list_users"@[0] == 'l' && "list_users"@[5] == 'u');
    assert("get_user"@.len() == 8);
    assert("create_user"@.len() == 11 && "create_user"@[0] == 'c' && "create_user"@[7] == 'u');
    assert("update_user"@.len() == 11 && "update_user"@[0] == 'u' && "update_user"@[7] == 'u');
    assert("delete_user"@.len() == 11 && "delete_user"@[0] == 'd' && "delete_user"@[7] == 'u');
    assert("get_me"@.len() == 6);
    assert("switch_company"@.len() == 14 && "switch_company"@[0] == 's');
    assert("get_person"@.len() == 10 && "get_person"@[0] == 'g' && "get_person"@[4] == 'p');
    assert("update_person"@.len() == 13 && "update_person"@[0] == 'u' && "update_person"@[7] == 'p');
    assert("list_user_profiles"@.len() == 18 && "list_user_profiles"@[0] == 'l' && "list_user_profiles"@[5] == 'u' && "list_user_profiles"@[10] == 'p');
    assert("add_user_profile"@.len() == 16);
    assert("update_user_profile"@.len() == 19 && "update_user_profile"@[0] == 'u' && "update_user_profile"@[7] == 'u');
    assert("remove_user_profile"@.len() == 19 && "remove_user_profile"@[0] == 'r');
    assert("list_user_contacts"@.len() == 18 && "list_user_contacts"@[0] == 'l' && "list_user_contacts"@[5] == 'u' && "list_user_contacts"@[10] == 'c');
    assert("create_contact"@.len() == 14 && "create_contact"@[0] == 'c' && "create_contact"@[9] == 'n');
    assert("update_contact"@.len() == 14 && "update_contact"@[0] == 'u' && "update_contact"@[9] == 'n');
    assert("delete_contact"@.len() == 14 && "delete_contact"@[0] == 'd' && "delete_contact"@[9] == 'n');
    assert("get_contact_types"@.len() == 17 && "get_contact_types"@[0] == 'g');
    assert("save_contact_types"@.len() == 18 && "save_contact_types"@[0] == 's');
    assert("list_user_certificates"@.len() == 22 && "list_user_certificates"@[0] == 'l');
    assert("deactivate_certificate"@.len() == 22 && "deactivate_certificate"@[0] == 'd');
    assert("list_roles"@.len() == 10 && "list_roles"@[0] == 'l' && "list_roles"@[5] == 'r');
    assert("create_role"@.len() == 11 && "create_role"@[0] == 'c' && "create_role"@[7] == 'r');
    assert("update_role"@.len() == 11 && "update_role"@[0] == 'u' && "update_role"@[7] == 'r');
    assert("delete_role"@.len() == 11 && "delete_role"@[0] == 'd' && "delete_role"@[7] == 'r');
    assert("list_permission_policies"@.len() == 24 && "list_permission_policies"@[0] == 'l' && "list_permission_policies"@[5] == 'p');
    assert("create_permission_policy"@.len() == 24 && "create_permission_policy"@[0] == 'c' && "create_permission_policy"@[7] == 'p');
    assert("delete_permission_policy"@.len() == 24 && "delete_permission_policy"@[0] == 'd' && "delete_permission_policy"@[7] == 'p');
    assert("get_my_permissions"@.len() == 18 && "get_my_permissions"@[0] == 'g');
    assert("get_app_config"@.len() == 14 && "get_app_config"@[0] == 'g');
    assert("save_app_config"@.len() == 15 && "save_app_config"@[0] == 's');
    assert("list_audit_logs"@.len() == 15 && "list_audit_logs"@[0] == 'l');
    assert("get_audit_entry"@.len() == 15 && "get_audit_entry"@[0] == 'g' && "get_audit_entry"@[4] == 'a');
    assert("list_events"@.len() == 11 && "list_events"@[0] == 'l');
    assert("get_event"@.len() == 9 && "get_event"@[0] == 'g');
    assert("list_stream_events"@.len() == 18 && "list_stream_events"@[0] == 'l' && "list_stream_events"@[5] == 's');
    assert("list_entity_types"@.len() == 17 && "list_entity_types"@[0] == 'l' && "list_entity_types"@[12] == 't');
    assert("get_entity_type"@.len() == 15 && "get_entity_type"@[0] == 'g' && "get_entity_type"@[4] == 'e');
    assert("create_entity_type"@.len() == 18 && "create_entity_type"@[0] == 'c' && "create_entity_type"@[14] == 't');
    assert("update_entity_type"@.len() == 18 && "update_entity_type"@[0] == 'u' && "update_entity_type"@[14] == 't');
    assert("delete_entity_type"@.len() == 18 && "delete_entity_type"@[0] == 'd' && "delete_entity_type"@[14] == 't');
    assert("list_entity_fields"@.len() == 18 && "list_entity_fields"@[0] == 'l' && "list_entity_fields"@[5] == 'e' && "list_entity_fields"@[12] == 'f');
    assert("create_entity_field"@.len() == 19 && "create_entity_field"@[0] == 'c' && "create_entity_field"@[14] == 'f');
    assert("update_entity_field"@.len() == 19 && "update_entity_field"@[0] == 'u' && "update_entity_field"@[7] == 'e' && "update_entity_field"@[14] == 'f');
    assert("delete_entity_field"@.len() == 19 && "delete_entity_field"@[0] == 'd' && "delete_entity_field"@[14] == 'f');
    assert("list_entity_states"@.len() == 18 && "list_entity_states"@[0] == 'l' && "list_entity_states"@[5] == 'e' && "list_entity_states"@[12] == 's');
    assert("create_entity_state"@.len() == 19 && "create_entity_state"@[0] == 'c' && "create_entity_state"@[14] == 's');
    assert("update_entity_state"@.len() == 19 && "update_entity_state"@[0] == 'u' && "update_entity_state"@[7] == 'e' && "update_entity_state"@[14] == 's');
    assert("delete_entity_state"@.len() == 19 && "delete_entity_state"@[0] == 'd' && "delete_entity_state"@[14] == 's');
    assert("list_entity_transitions"@.len() == 23 && "list_entity_transitions"@[0] == 'l');
    assert("create_entity_transition"@.len() == 24 && "create_entity_transition"@[0] == 'c' && "create_entity_transition"@[7] == 'e');
    assert("update_entity_transition"@.len() == 24 && "update_entity_transition"@[0] == 'u');
    assert("delete_entity_transition"@.len() == 24 && "delete_entity_transition"@[0] == 'd' && "delete_entity_transition"@[7] == 'e');
    assert("list_entity_forms"@.len() == 17 && "list_entity_forms"@[0] == 'l' && "list_entity_forms"@[12] == 'f');
    assert("create_entity_form"@.len() == 18 && "create_entity_form"@[0] == 'c' && "create_entity_form"@[14] == 'f');
    assert("update_entity_form"@.len() == 18 && "update_entity_form"@[0] == 'u' && "update_entity_form"@[14] == 'f');
    assert("delete_entity_form"@.len() == 18 && "delete_entity_form"@[0] == 'd' && "delete_entity_form"@[14] == 'f');
    assert("list_entity_actions"@.len() == 19 && "list_entity_actions"@[0] == 'l');
    assert("create_entity_action"@.len() == 20 && "create_entity_action"@[0] == 'c');
    assert("update_entity_action"@.len() == 20 && "update_entity_action"@[0] == 'u');
    assert("delete_entity_action"@.len() == 20 && "delete_entity_action"@[0] == 'd');
    assert("validate_entity_transition"@.len() == 26);
    assert("execute_entity_action"@.len() == 21 && "execute_entity_action"@[0] == 'e');
    assert("list_crypto_certificates"@.len() == 24 && "list_crypto_certificates"@[0] == 'l' && "list_crypto_certificates"@[5] == 'c');
    assert("sign_document"@.len() == 13 && "sign_document"@[0] == 's');
    assert("verify_document_signature"@.len() == 25);
    assert("list_objects"@.len() == 12 && "list_objects"@[0] == 'l');
    assert("get_object"@.len() == 10 && "get_object"@[0] == 'g' && "get_object"@[4] == 'o');
    assert("create_object"@.len() == 13 && "create_object"@[0] == 'c' && "create_object"@[1] == 'r');
    assert("update_object"@.len() == 13 && "update_object"@[0] == 'u' && "update_object"@[7] == 'o');
    assert("post_object"@.len() == 11 && "post_object"@[0] == 'p' && "post_object"@[1] == 'o');
    assert("cancel_object"@.len() == 13 && "cancel_object"@[0] == 'c' && "cancel_object"@[1] == 'a');
    assert("restore_object_version"@.len() == 22 && "restore_object_version"@[0] == 'r');
    assert("list_object_versions"@.len() == 20 && "list_object_versions"@[0] == 'l');
    assert("wasm_load"@.len() == 9 && "wasm_load"@[0] == 'w' && "wasm_load"@[6] == 'o');
    assert("wasm_unload"@.len() == 11 && "wasm_unload"@[0] == 'w');
    assert("wasm_list"@.len() == 9 && "wasm_list"@[0] == 'w' && "wasm_list"@[6] == 'i');
    assert("plugin_call"@.len() == 11 && "plugin_call"@[0] == 'p' && "plugin_call"@[1] == 'l');
    assert("print_list_templates"@.len() == 20 && "print_list_templates"@[0] == 'p');
    assert("print_get_template"@.len() == 18 && "print_get_template"@[0] == 'p');
    assert("print_create_template"@.len() == 21 && "print_create_template"@[0] == 'p' && "print_create_template"@[6] == 'c');
    assert("print_update_template"@.len() == 21 && "print_update_template"@[0] == 'p' && "print_update_template"@[6] == 'u');
    assert("print_delete_template"@.len() == 21 && "print_delete_template"@[0] == 'p' && "print_delete_template"@[6] == 'd');
    assert("print_render"@.len() == 12 && "print_render"@[0] == 'p');
    assert("numbering_list"@.len() == 14 && "numbering_list"@[0] == 'n');
    assert("numbering_get"@.len() == 13 && "numbering_get"@[0] == 'n');
    assert("numbering_update_format"@.len() == 23 && "numbering_update_format"@[0] == 'n');
    assert("numbering_reset"@.len() == 15 && "numbering_reset"@[0] == 'n');
    assert("modules_list"@.len() == 12 && "modules_list"@[0] == 'm');
    assert("modules_get"@.len() == 11 && "modules_get"@[0] == 'm');
    assert("modules_install"@.len() == 15 && "modules_install"@[0] == 'm' && "modules_install"@[8] == 'i');
    assert("modules_uninstall"@.len() == 17 && "modules_uninstall"@[0] == 'm');
    assert("modules_enable"@.len() == 14 && "modules_enable"@[0] == 'm');
    assert("modules_disable"@.len() == 15 && "modules_disable"@[0] == 'm' && "modules_disable"@[8] == 'd');
    assert("modules_update_settings"@.len() == 23 && "modules_update_settings"@[0] == 'm');
    assert forall|i: usize| i < command_count() implies command_index(#[trigger] command_row(i).0) == i by {
        if i == 0 {}
        else if i == 1 {}
        else if i == 2 {}
        else if i == 3 {}
        else if i == 4 {}
        else if i == 5 {}
        else if i == 6 {}
        else if i == 7 {}
        else if i == 8 {}
        else if i == 9 {}
        else if i == 10 {}
        else if i == 11 {}
        else if i == 12 {}
        else if i == 13 {}
        else if i == 14 {}
        else if i == 15 {}
        else if i == 16 {}
        else if i == 17 {}
        else if i == 18 {}
        else if i == 19 {}
        else if i == 20 {}
        else if i == 21 {}
        else if i == 22 {}
        else if i == 23 {}
        else if i == 24 {}
        else if i == 25 {}
        else if i == 26 {}
        else if i == 27 {}
        else if i == 28 {}
        else if i == 29 {}
        else if i == 30 {}
        else if i == 31 {}
        else if i == 32 {}
        else if i == 33 {}
        else if i == 34 {}
        else if i == 35 {}
        else if i == 36 {}
        else if i == 37 {}
        else if i == 38 {}
        else if i == 39 {}
        else if i == 40 {}
        else if i == 41 {}
        else if i == 42 {}
        else if i == 43 {}
        else if i == 44 {}
        else if i == 45 {}
        else if i == 46 {}
        else if i == 47 {}
        else if i == 48 {}
        else if i == 49 {}
        else if i == 50 {}
        else if i == 51 {}
        else if i == 52 {}
        else if i == 53 {}
        else if i == 54 {}
        else if i == 55 {}
        else if i == 56 {}
        else if i == 57 {}
        else if i == 58 {}
        else if i == 59 {}
        else if i == 60 {}
        else if i == 61 {}
        else if i == 62 {}
        else if i == 63 {}
        else if i == 64 {}
        else if i == 65 {}
        else if i == 66 {}
        else if i == 67 {}
        else if i == 68 {}
        else if i == 69 {}
        else if i == 70 {}
        else if i == 71 {}
        else if i == 72 {}
        else if i == 73 {}
        else if i == 74 {}
        else if i == 75 {}
        else if i == 76 {}
        else if i == 77 {}
        else if i == 78 {}
        else if i == 79 {}
        else if i == 80 {}
        else if i == 81 {}
        else if i == 82 {}
        else if i == 83 {}
        else if i == 84 {}
        else if i == 85 {}
        else if i == 86 {}
        else if i == 87 {}
        else if i == 88 {}
        else if i == 89 {}
        else if i == 90 {}
        else if i == 91 {}
        else if i == 92 {}
        else if i == 93 {}
        else if i == 94 {}
        else if i == 95 {}
        else if i == 96 {}
        else if i == 97 {}
        else if i == 98 {}
        else if i == 99 {}
        else if i == 100 {}
        else if i == 101 {}
        else if i == 102 {}
        else if i == 103 {}
        else if i == 104 {}
    }
}

/// No command appears twice in the table.
pub proof fn lemma_commands_distinct()
    ensures
        forall|i: usize, j: usize| i < j < command_count() ==> (#[trigger] command_row(i)).0 != (#[trigger] command_row(j)).0,
{
    lemma_command_index();
    assert forall|i: usize, j: usize| i < j < command_count() implies (#[trigger] command_row(i)).0 != (#[trigger] command_row(j)).0 by {
        assert(command_index(command_row(i).0) == i);
        assert(command_index(command_row(j).0) == j);
    }
}

/// The command table, in the order the commands are declared: row `i` holds
/// `command_row(i)`.
pub fn command_map() -> (r: Vec<CommandMapping>)
    ensures
        r@.len() == command_count(),
        forall|i: usize| i < command_count() ==> {
            &&& (#[trigger] r@[i as int]).command@ == command_row(i).0
            &&& r@[i as int].permission@ == command_permission(i)
            &&& r@[i as int].scope == command_row(i).2
            &&& r@[i as int].audit@ == command_audit(i)
        },
{
    let mut r: Vec<CommandMapping> = Vec::new();
    let mut i: usize = 0;
    while i < 105
        invariant
            i <= 105,
            r@.len() == i,
            forall|j: usize| j < i ==> {
                &&& (#[trigger] r@[j as int]).command@ == command_row(j).0
                &&& r@[j as int].permission@ == command_permission(j)
                &&& r@[j as int].scope == command_row(j).2
                &&& r@[j as int].audit@ == command_audit(j)
            },
        decreases 105 - i,
    {
        r.push(command_row_exec(i));
        i = i + 1;
    }
    r
}

} // verus!
