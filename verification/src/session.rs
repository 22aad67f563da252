//! The session's settings: the database connection to use, the connections
//! the user saved, and the inputs of session commands.

use vstd::prelude::*;
use crate::text::{owned, str_eq, is_blank, is_blank_exec};

verus! {

/// The connection a user asks for; missing values come from the environment.
pub struct ConnectInput {
    pub uri: Option<String>,
    pub db_name: Option<String>,
}

/// The application's settings.
pub struct AppConfig {
    pub mongodb_uri: Option<String>,
    pub mongodb_database: Option<String>,
}

/// A database connection the user saved under a name.
pub struct SavedConnection {
    pub id: String,
    pub name: String,
    pub uri: String,
    pub db_name: String,
}

/// A request to switch to another company.
pub struct SwitchCompanyInput {
    pub company_id: String,
}

/// Filters of the audit list as the user interface sends them.
pub struct AuditLogFilters {
    pub actions: Option<Vec<String>>,
    pub target_type: Option<String>,
    pub user_id: Option<String>,
    pub date_from: Option<String>,
    pub date_to: Option<String>,
    pub limit: Option<u32>,
    pub before: Option<String>,
    pub after: Option<String>,
}

/// The database name used when none is given.
pub fn default_db_name() -> (r: String)
    ensures
        r@ == "2c_platform"@,
{
    owned("2c_platform")
}

/// A value that is given and not empty.
pub open spec fn given(o: Option<String>) -> Option<Seq<char>> {
    match o {
        Some(s) => if s@.len() > 0 { Some(s@) } else { None },
        None => None,
    }
}

/// The connection to open: the form's URI (when not empty), else the
/// environment's; the form's database name (when not empty), else the
/// environment's, else `2c_platform`. Without any URI it is refused.
pub fn resolve_connection(
    input: ConnectInput,
    env_uri: Option<String>,
    env_db_name: Option<String>,
) -> (r: Result<(String, String), String>)
    ensures
        ({
            let uri = match given(input.uri) { Some(u) => Some(u), None => match env_uri { Some(e) => Some(e@), None => None } };
            let db = match given(input.db_name) {
                Some(d) => d,
                None => match env_db_name { Some(e) => e@, None => "2c_platform"@ },
            };
            &&& uri is None ==> (r matches Err(m) && m@ == "URI подключения не указан. Укажите в форме или в .env (MONGODB_URI)"@)
            &&& uri matches Some(u) ==> (r matches Ok((ru, rd)) && ru@ == u && rd@ == db)
        }),
{
    let uri = match input.uri {
        Some(u) => if u.as_str().is_empty() { env_uri } else { Some(u) },
        None => env_uri,
    };
    let uri = match uri {
        Some(u) => u,
        None => { return Err(owned("URI подключения не указан. Укажите в форме или в .env (MONGODB_URI)")); },
    };
    let db = match input.db_name {
        Some(d) => if d.as_str().is_empty() {
            match env_db_name { Some(e) => e, None => default_db_name() }
        } else {
            d
        },
        None => match env_db_name { Some(e) => e, None => default_db_name() },
    };
    Ok((uri, db))
}

/// A connection as it is saved: a blank name or URI is refused; a blank
/// database name becomes the default; an empty id gets `new_id`.
pub fn prepare_saved_connection(conn: SavedConnection, new_id: String) -> (r: Result<SavedConnection, String>)
    ensures
        is_blank(conn.name@) ==> (r matches Err(m) && m@ == "Укажите имя подключения"@),
        !is_blank(conn.name@) && is_blank(conn.uri@) ==> (r matches Err(m) && m@ == "Укажите URI подключения"@),
        !is_blank(conn.name@) && !is_blank(conn.uri@) ==> (r matches Ok(c)
            && c.name == conn.name && c.uri == conn.uri
            && c.db_name@ == (if is_blank(conn.db_name@) { "2c_platform"@ } else { conn.db_name@ })
            && c.id == (if conn.id@.len() == 0 { new_id } else { conn.id })),
{
    if is_blank_exec(conn.name.as_str()) {
        return Err(owned("Укажите имя подключения"));
    }
    if is_blank_exec(conn.uri.as_str()) {
        return Err(owned("Укажите URI подключения"));
    }
    let db_name = if is_blank_exec(conn.db_name.as_str()) { default_db_name() } else { conn.db_name };
    let id = if conn.id.as_str().is_empty() { new_id } else { conn.id };
    Ok(SavedConnection { id, name: conn.name, uri: conn.uri, db_name })
}

/// The position of the first saved connection with the id.
pub open spec fn first_with_id(list: Seq<SavedConnection>, id: Seq<char>) -> Option<int>
    decreases list.len(),
{
    if list.len() == 0 {
        None
    } else {
        match first_with_id(list.drop_last(), id) {
            Some(k) => Some(k),
            None => if list.last().id@ == id { Some(list.len() - 1) } else { None },
        }
    }
}

proof fn lemma_first_with_id_extends(list: Seq<SavedConnection>, id: Seq<char>, i: int, j: int)
    requires
        0 <= i <= j <= list.len(),
        first_with_id(list.take(i), id) is Some,
    ensures
        first_with_id(list.take(j), id) == first_with_id(list.take(i), id),
    decreases j - i,
{
    if j > i {
        lemma_first_with_id_extends(list, id, i, j - 1);
        assert(list.take(j).drop_last() =~= list.take(j - 1));
    }
}

/// Stores a connection in the list: it replaces the first one with its id, or
/// joins the end of the list.
pub fn upsert_connection(saved: Vec<SavedConnection>, conn: SavedConnection) -> (r: Vec<SavedConnection>)
    ensures
        match first_with_id(saved@, conn.id@) {
            Some(k) => r@ == saved@.update(k, conn),
            None => r@ == saved@.push(conn),
        },
{
    let mut list = saved;
    let mut i: usize = 0;
    while i < list.len()
        invariant
            i <= list@.len(),
            list@ == saved@,
            first_with_id(saved@.take(i as int), conn.id@) is None,
        decreases list.len() - i,
    {
        proof {
            assert(saved@.take(i + 1).drop_last() =~= saved@.take(i as int));
            assert(saved@.take(i + 1).last() == saved@[i as int]);
        }
        if str_eq(list[i].id.as_str(), conn.id.as_str()) {
            proof {
                lemma_first_with_id_extends(saved@, conn.id@, i + 1, saved@.len() as int);
                assert(saved@.take(saved@.len() as int) =~= saved@);
            }
            list.set(i, conn);
            return list;
        }
        i = i + 1;
    }
    assert(saved@.take(saved@.len() as int) =~= saved@);
    list.push(conn);
    list
}

proof fn lemma_first_with_id_spec(list: Seq<SavedConnection>, id: Seq<char>)
    ensures
        match first_with_id(list, id) {
            Some(k) => 0 <= k < list.len() && list[k].id@ == id
                && forall|j: int| 0 <= j < k ==> (#[trigger] list[j]).id@ != id,
            None => forall|j: int| 0 <= j < list.len() ==> (#[trigger] list[j]).id@ != id,
        },
    decreases list.len(),
{
    if list.len() > 0 {
        let init = list.drop_last();
        lemma_first_with_id_spec(init, id);
        match first_with_id(init, id) {
            Some(k) => {
                assert(list[k] == init[k]);
                assert forall|j: int| 0 <= j < k implies (#[trigger] list[j]).id@ != id by {
                    assert(list[j] == init[j]);
                }
            },
            None => {
                assert forall|j: int| 0 <= j < list.len() - 1 implies (#[trigger] list[j]).id@ != id by {
                    assert(list[j] == init[j]);
                }
                assert(list.last() == list[list.len() - 1]);
            },
        }
    }
}

/// A saved connection is found again by its id: after storing it, the first
/// connection with its id is the stored one.
pub proof fn lemma_saved_connection_found(saved: Seq<SavedConnection>, conn: SavedConnection)
    ensures
        ({
            let r = match first_with_id(saved, conn.id@) {
                Some(k) => saved.update(k, conn),
                None => saved.push(conn),
            };
            first_with_id(r, conn.id@) matches Some(k) && r[k] == conn
        }),
{
    let id = conn.id@;
    lemma_first_with_id_spec(saved, id);
    match first_with_id(saved, id) {
        Some(k) => {
            let r = saved.update(k, conn);
            lemma_first_with_id_spec(r, id);
            assert(r[k] == conn);
            assert forall|j: int| 0 <= j < k implies (#[trigger] r[j]).id@ != id by {
                assert(r[j] == saved[j]);
            }
            let k2 = first_with_id(r, id)->0;
            assert(k2 == k) by {
                if k2 < k {
                    assert(r[k2].id@ != id);
                }
                if k2 > k {
                    assert(r[k].id@ != id);
                }
            }
        },
        None => {
            let r = saved.push(conn);
            assert(r.drop_last() =~= saved);
            assert(r.last() == conn);
        },
    }
}

/// Do the saved connections have distinct ids?
pub open spec fn ids_unique(list: Seq<SavedConnection>) -> bool {
    forall|i: int, j: int| 0 <= i < j < list.len() ==> (#[trigger] list[i]).id@ != (#[trigger] list[j]).id@
}

/// Storing a connection keeps at most one connection per id.
pub proof fn lemma_saving_keeps_ids_unique(saved: Seq<SavedConnection>, conn: SavedConnection)
    requires
        ids_unique(saved),
    ensures
        ids_unique(match first_with_id(saved, conn.id@) {
            Some(k) => saved.update(k, conn),
            None => saved.push(conn),
        }),
{
    let id = conn.id@;
    lemma_first_with_id_spec(saved, id);
    match first_with_id(saved, id) {
        Some(k) => {
            let r = saved.update(k, conn);
            assert forall|i: int, j: int| 0 <= i < j < r.len() implies (#[trigger] r[i]).id@ != (#[trigger] r[j]).id@ by {
                if i == k {
                    assert(saved[k].id@ == id && r[j] == saved[j]);
                } else if j == k {
                    assert(saved[k].id@ == id && r[i] == saved[i]);
                } else {
                    assert(r[i] == saved[i] && r[j] == saved[j]);
                }
            }
        },
        None => {
            let r = saved.push(conn);
            assert forall|i: int, j: int| 0 <= i < j < r.len() implies (#[trigger] r[i]).id@ != (#[trigger] r[j]).id@ by {
                assert(r[i] == saved[i]);
                if j < saved.len() {
                    assert(r[j] == saved[j]);
                }
            }
        },
    }
}

/// The test that keeps a saved connection: its id is not `id`.
pub open spec fn keeps(id: Seq<char>) -> spec_fn(SavedConnection) -> bool {
    |c: SavedConnection| c.id@ != id
}

/// The saved connections without those with the id, in their order.
pub open spec fn kept_connections(list: Seq<SavedConnection>, id: Seq<char>) -> Seq<SavedConnection> {
    list.filter(keeps(id))
}

/// Removes every saved connection with the id.
pub fn remove_connection(list: Vec<SavedConnection>, id: &str) -> (r: Vec<SavedConnection>)
    ensures
        r@ == kept_connections(list@, id@),
{
    let mut out: Vec<SavedConnection> = Vec::new();
    let mut rest = list;
    let ghost orig = rest@;
    let n = rest.len();
    let mut k: usize = 0;
    while k < n
        invariant
            k <= n,
            n == orig.len(),
            rest@ == orig.skip(k as int),
            out@ == orig.take(k as int).filter(keeps(id@)),
        decreases n - k,
    {
        let c = rest.remove(0);
        proof {
            assert(c == orig[k as int]);
            assert(rest@ =~= orig.skip(k + 1));
            assert(orig.take(k + 1).drop_last() =~= orig.take(k as int));
            reveal(Seq::filter);
            assert(orig.take(k + 1).last() == c);
        }
        if !str_eq(c.id.as_str(), id) {
            out.push(c);
        }
        k = k + 1;
    }
    assert(orig.take(n as int) =~= orig);
    out
}

/// After a connection is removed, no saved connection has its id.
pub proof fn lemma_removed_connection_gone(list: Seq<SavedConnection>, id: Seq<char>)
    ensures
        forall|i: int| 0 <= i < kept_connections(list, id).len() ==> (#[trigger] kept_connections(list, id)[i]).id@ != id,
{
    assert forall|i: int| 0 <= i < kept_connections(list, id).len() implies (#[trigger] kept_connections(list, id)[i]).id@ != id by {
        list.lemma_filter_pred(keeps(id), i);
    }
}

/// What the platform reports of its database.
pub struct DiagnosticsInfo {
    pub connected: bool,
    pub host: String,
    pub version: Option<String>,
    pub replica_set: Option<String>,
    pub ok: bool,
}

/// The report when no database is connected.
pub fn disconnected_diagnostics() -> (r: DiagnosticsInfo)
    ensures
        !r.connected,
        r.host@ == "не подключено"@,
        r.version is None,
        r.replica_set is None,
        !r.ok,
{
    DiagnosticsInfo { connected: false, host: owned("не подключено"), version: None, replica_set: None, ok: false }
}

} // verus!
