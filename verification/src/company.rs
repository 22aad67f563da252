//! Companies: their records, creation, updates, and what the audit trail
//! records of each change.

use vstd::prelude::*;
use crate::platform::PlatformError;
use crate::audit::AuditChanges;
use crate::meta::{or_keep, or_keep_opt};
use crate::text::{owned, concat3, contains, contains_exec, str_eq};

verus! {

/// A company. Times are milliseconds since the Unix epoch.
pub struct Company {
    pub id: String,
    pub code: String,
    pub name: String,
    pub inn: Option<String>,
    pub kpp: Option<String>,
    pub ogrn: Option<String>,
    pub okved: Option<String>,
    pub legal_address: Option<String>,
    pub postal_address: Option<String>,
    pub phone: Option<String>,
    pub email: Option<String>,
    pub website: Option<String>,
    pub bank_name: Option<String>,
    pub bank_bik: Option<String>,
    pub bank_account: Option<String>,
    pub bank_correspondent_account: Option<String>,
    pub director_name: Option<String>,
    pub director_position: Option<String>,
    pub accountant_name: Option<String>,
    /// Taxation: `false` is the general regime, `true` the simplified one.
    pub tax_regime_usn: bool,
    pub active: bool,
    pub created_at: i64,
    pub updated_at: i64,
}

/// A request to create a company.
pub struct CreateCompanyInput {
    pub code: String,
    pub name: String,
    pub inn: Option<String>,
    pub kpp: Option<String>,
    pub ogrn: Option<String>,
    pub okved: Option<String>,
    pub legal_address: Option<String>,
    pub postal_address: Option<String>,
    pub phone: Option<String>,
    pub email: Option<String>,
    pub website: Option<String>,
    pub bank_name: Option<String>,
    pub bank_bik: Option<String>,
    pub bank_account: Option<String>,
    pub bank_correspondent_account: Option<String>,
    pub director_name: Option<String>,
    pub director_position: Option<String>,
    pub accountant_name: Option<String>,
    pub tax_regime_usn: bool,
}

/// A change of a company: each given value replaces the stored one.
pub struct UpdateCompanyInput {
    pub name: Option<String>,
    pub inn: Option<String>,
    pub kpp: Option<String>,
    pub ogrn: Option<String>,
    pub okved: Option<String>,
    pub legal_address: Option<String>,
    pub postal_address: Option<String>,
    pub phone: Option<String>,
    pub email: Option<String>,
    pub website: Option<String>,
    pub bank_name: Option<String>,
    pub bank_bik: Option<String>,
    pub bank_account: Option<String>,
    pub bank_correspondent_account: Option<String>,
    pub director_name: Option<String>,
    pub director_position: Option<String>,
    pub accountant_name: Option<String>,
    pub tax_regime_usn: Option<bool>,
    pub active: Option<bool>,
}

fn patch(new: Option<String>, old: Option<String>) -> (r: Option<String>)
    ensures
        r == or_keep_opt(new, old),
{
    match new {
        Some(v) => Some(v),
        None => old,
    }
}

impl Company {
    /// A new, active company.
    pub fn new(input: CreateCompanyInput, id: String, now: i64) -> (r: Company)
        ensures
            r == (Company {
                id: id,
                code: input.code,
                name: input.name,
                inn: input.inn,
                kpp: input.kpp,
                ogrn: input.ogrn,
                okved: input.okved,
                legal_address: input.legal_address,
                postal_address: input.postal_address,
                phone: input.phone,
                email: input.email,
                website: input.website,
                bank_name: input.bank_name,
                bank_bik: input.bank_bik,
                bank_account: input.bank_account,
                bank_correspondent_account: input.bank_correspondent_account,
                director_name: input.director_name,
                director_position: input.director_position,
                accountant_name: input.accountant_name,
                tax_regime_usn: input.tax_regime_usn,
                active: true,
                created_at: now,
                updated_at: now,
            }),
    {
        Company {
            id,
            code: input.code,
            name: input.name,
            inn: input.inn,
            kpp: input.kpp,
            ogrn: input.ogrn,
            okved: input.okved,
            legal_address: input.legal_address,
            postal_address: input.postal_address,
            phone: input.phone,
            email: input.email,
            website: input.website,
            bank_name: input.bank_name,
            bank_bik: input.bank_bik,
            bank_account: input.bank_account,
            bank_correspondent_account: input.bank_correspondent_account,
            director_name: input.director_name,
            director_position: input.director_position,
            accountant_name: input.accountant_name,
            tax_regime_usn: input.tax_regime_usn,
            active: true,
            created_at: now,
            updated_at: now,
        }
    }
}

/// The companies of the platform.
pub struct CompanyService;

impl CompanyService {
    /// The service.
    pub fn new() -> (r: CompanyService)
        ensures
            r == CompanyService,
    {
        CompanyService
    }

    /// A company after an update.
    pub fn apply_update(old: Company, input: UpdateCompanyInput, now: i64) -> (r: Company)
        ensures
            r == (Company {
                name: or_keep(input.name, old.name),
                inn: or_keep_opt(input.inn, old.inn),
                kpp: or_keep_opt(input.kpp, old.kpp),
                ogrn: or_keep_opt(input.ogrn, old.ogrn),
                okved: or_keep_opt(input.okved, old.okved),
                legal_address: or_keep_opt(input.legal_address, old.legal_address),
                postal_address: or_keep_opt(input.postal_address, old.postal_address),
                phone: or_keep_opt(input.phone, old.phone),
                email: or_keep_opt(input.email, old.email),
                website: or_keep_opt(input.website, old.website),
                bank_name: or_keep_opt(input.bank_name, old.bank_name),
                bank_bik: or_keep_opt(input.bank_bik, old.bank_bik),
                bank_account: or_keep_opt(input.bank_account, old.bank_account),
                bank_correspondent_account: or_keep_opt(input.bank_correspondent_account, old.bank_correspondent_account),
                director_name: or_keep_opt(input.director_name, old.director_name),
                director_position: or_keep_opt(input.director_position, old.director_position),
                accountant_name: or_keep_opt(input.accountant_name, old.accountant_name),
                tax_regime_usn: or_keep(input.tax_regime_usn, old.tax_regime_usn),
                active: or_keep(input.active, old.active),
                updated_at: now,
                ..old
            }),
    {
        let name = match input.name { Some(n) => n, None => old.name };
        let usn = match input.tax_regime_usn { Some(b) => b, None => old.tax_regime_usn };
        let active = match input.active { Some(b) => b, None => old.active };
        Company {
            name,
            inn: patch(input.inn, old.inn),
            kpp: patch(input.kpp, old.kpp),
            ogrn: patch(input.ogrn, old.ogrn),
            okved: patch(input.okved, old.okved),
            legal_address: patch(input.legal_address, old.legal_address),
            postal_address: patch(input.postal_address, old.postal_address),
            phone: patch(input.phone, old.phone),
            email: patch(input.email, old.email),
            website: patch(input.website, old.website),
            bank_name: patch(input.bank_name, old.bank_name),
            bank_bik: patch(input.bank_bik, old.bank_bik),
            bank_account: patch(input.bank_account, old.bank_account),
            bank_correspondent_account: patch(input.bank_correspondent_account, old.bank_correspondent_account),
            director_name: patch(input.director_name, old.director_name),
            director_position: patch(input.director_position, old.director_position),
            accountant_name: patch(input.accountant_name, old.accountant_name),
            tax_regime_usn: usn,
            active,
            updated_at: now,
            ..old
        }
    }

    /// What the audit trail records of a creation: the new code and name.
    pub fn creation_changes(c: &Company) -> (r: AuditChanges)
        ensures
            r.wf(),
            r.view() == Map::<Seq<char>, (Option<Seq<char>>, Option<Seq<char>>)>::empty()
                .insert("code"@, (None, Some(c.code@))).insert("name"@, (None, Some(c.name@))),
    {
        AuditChanges::new().field_new("code", c.code.as_str()).field_new("name", c.name.as_str())
    }

    /// What the audit trail records of a deletion: the old code and name.
    pub fn deletion_changes(c: &Company) -> (r: AuditChanges)
        ensures
            r.wf(),
            r.view() == Map::<Seq<char>, (Option<Seq<char>>, Option<Seq<char>>)>::empty()
                .insert("code"@, (Some(c.code@), None)).insert("name"@, (Some(c.name@), None)),
    {
        AuditChanges::new().field_old("code", c.code.as_str()).field_old("name", c.name.as_str())
    }

    /// What the audit trail records of an update: the name and the INN, each
    /// when it changed (a missing INN counts as empty).
    pub fn update_changes(old: &Company, updated: &Company) -> (r: AuditChanges)
        ensures
            r.wf(),
            r.view() == {
                let m0 = Map::<Seq<char>, (Option<Seq<char>>, Option<Seq<char>>)>::empty();
                let m1 = if old.name@ != updated.name@ { m0.insert("name"@, (Some(old.name@), Some(updated.name@))) } else { m0 };
                if opt_text(old.inn) != opt_text(updated.inn) {
                    m1.insert("inn"@, (Some(or_empty(old.inn)), Some(or_empty(updated.inn))))
                } else {
                    m1
                }
            },
    {
        let mut changes = AuditChanges::new();
        if !str_eq(old.name.as_str(), updated.name.as_str()) {
            changes = changes.field("name", old.name.as_str(), updated.name.as_str());
        }
        let same_inn = match (&old.inn, &updated.inn) {
            (Some(a), Some(b)) => str_eq(a.as_str(), b.as_str()),
            (None, None) => true,
            _ => false,
        };
        assert(same_inn == (opt_text(old.inn) == opt_text(updated.inn)));
        if !same_inn {
            let a: &str = match &old.inn { Some(a) => a.as_str(), None => "" };
            let b: &str = match &updated.inn { Some(b) => b.as_str(), None => "" };
            proof {
                reveal_strlit("");
                assert(a@ =~= or_empty(old.inn));
                assert(b@ =~= or_empty(updated.inn));
            }
            changes = changes.field("inn", a, b);
        }
        changes
    }

    /// The refusal of a creation that the database rejected with `error`: a
    /// duplicate code is a validation error, anything else a database error.
    pub fn creation_error(code: &str, error: &str) -> (r: PlatformError)
        ensures
            contains(error@, "duplicate key"@) ==> (r matches PlatformError::Validation(m)
                && m@ == "Компания с кодом '"@ + code@ + "' уже существует"@),
            !contains(error@, "duplicate key"@) ==> (r matches PlatformError::Database(m) && m@ == error@),
    {
        if contains_exec(error, "duplicate key") {
            PlatformError::Validation(concat3("Компания с кодом '", code, "' уже существует"))
        } else {
            PlatformError::Database(owned(error))
        }
    }

    /// `NotFound` for a company id.
    pub fn not_found(id: &str) -> (r: PlatformError)
        ensures
            r matches PlatformError::NotFound(m) && m@ == "Компания "@ + id@ + " не найдена"@,
    {
        PlatformError::NotFound(concat3("Компания ", id, " не найдена"))
    }
}

/// An optional text as an optional sequence.
pub open spec fn opt_text(o: Option<String>) -> Option<Seq<char>> {
    match o {
        Some(s) => Some(s@),
        None => None,
    }
}

/// An optional text, empty when missing.
pub open spec fn or_empty(o: Option<String>) -> Seq<char> {
    match o {
        Some(s) => s@,
        None => Seq::empty(),
    }
}

} // verus!
