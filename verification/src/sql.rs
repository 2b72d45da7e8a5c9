//! The statements that store and update table rows. A column whose value is
//! absent is left out, so that the database default applies (insert) or the
//! stored value stays (update); the values are bound in the order of the
//! columns that the statement names.

use vstd::prelude::*;
use crate::text::{join, join_spec, owned, push_all};
use crate::records::{
    TbAigw, TbBackend, TbChangeLog, TbCluster, TbClusterIpCidr, TbConsole, TbLocation, TbSession,
    TbSite, TbTask, TbUser,
};


verus! {

/// The names of the columns whose value is present, in order.
pub open spec fn present_names(cols: Seq<(&str, bool)>) -> Seq<Seq<char>>
    decreases cols.len(),
{
    if cols.len() == 0 {
        Seq::empty()
    } else {
        let prev = present_names(cols.drop_last());
        if cols.last().1 {
            prev.push(cols.last().0@)
        } else {
            prev
        }
    }
}

/// `n` placeholders.
pub open spec fn placeholders(n: nat) -> Seq<Seq<char>> {
    Seq::new(n, |i: int| "?"@)
}

/// `INSERT INTO <table> (<present columns>) VALUES (<one ? per column>)`.
#[verifier::opaque]
pub open spec fn insert_statement_spec(table: Seq<char>, cols: Seq<(&str, bool)>) -> Seq<char> {
    let names = present_names(cols);
    "INSERT INTO "@ + table + " ("@ + join_spec(names, ","@) + ") VALUES ("@
        + join_spec(placeholders(names.len()), ","@) + ")"@
}

/// `UPDATE <table> SET <col = ? for each present column> WHERE <condition>`.
#[verifier::opaque]
pub open spec fn update_statement_spec(
    table: Seq<char>,
    cols: Seq<(&str, bool)>,
    condition: Seq<char>,
) -> Seq<char> {
    let names = present_names(cols);
    "UPDATE "@ + table + " SET "@ + join_spec(
        Seq::new(names.len(), |i: int| names[i] + " = ?"@),
        ","@,
    ) + " WHERE "@ + condition
}

/// The names of the present columns, and one assignment text per name.
fn present_columns(cols: &[(&str, bool)]) -> (r: (Vec<String>, Vec<String>, Vec<String>))
    ensures
        r.0.deep_view() == present_names(cols@),
        r.1.deep_view() == placeholders(present_names(cols@).len()),
        r.2.deep_view() == Seq::new(
            present_names(cols@).len(),
            |i: int| present_names(cols@)[i] + " = ?"@,
        ),
{
    let mut names: Vec<String> = Vec::new();
    let mut marks: Vec<String> = Vec::new();
    let mut sets: Vec<String> = Vec::new();
    let mut i: usize = 0;
    while i < cols.len()
        invariant
            i <= cols@.len(),
            names.deep_view() == present_names(cols@.take(i as int)),
            marks@.len() == names@.len(),
            sets@.len() == names@.len(),
            marks.deep_view() == placeholders(names@.len()),
            sets.deep_view() == Seq::new(names@.len(), |k: int| names.deep_view()[k] + " = ?"@),
        decreases cols@.len() - i,
    {
        let (name, present) = cols[i];
        assert(cols@.take(i + 1).drop_last() =~= cols@.take(i as int));
        assert(cols@.take(i + 1).last() == cols@[i as int]);
        if present {
            let ghost before_names = names.deep_view();
            let ghost before_marks = marks.deep_view();
            let ghost before_sets = sets.deep_view();
            names.push(owned(name));
            marks.push(owned("?"));
            let mut a = owned(name);
            push_all(&mut a, " = ?");
            sets.push(a);
            assert(names.deep_view() =~= before_names.push(name@));
            assert forall|k: int| 0 <= k < marks@.len() implies marks.deep_view()[k] == "?"@ by {
                if k < marks@.len() - 1 {
                    assert(marks.deep_view()[k] == before_marks[k]);
                }
            }
            assert(marks.deep_view() =~= placeholders(names@.len()));
            assert forall|k: int| 0 <= k < sets@.len() implies sets.deep_view()[k]
                == names.deep_view()[k] + " = ?"@ by {
                if k < sets@.len() - 1 {
                    assert(sets.deep_view()[k] == before_sets[k]);
                    assert(names.deep_view()[k] == before_names[k]);
                }
            }
            assert(sets.deep_view() =~= Seq::new(names@.len(), |k: int| names.deep_view()[k] + " = ?"@));
        }
        i = i + 1;
    }
    assert(cols@.take(cols@.len() as int) =~= cols@);
    (names, marks, sets)
}

/// The columns of `a` followed by those of `b`.
fn concat_columns<'a>(a: &[(&'a str, bool)], b: &[(&'a str, bool)]) -> (r: Vec<(&'a str, bool)>)
    ensures
        r@ == a@ + b@,
{
    let mut r: Vec<(&'a str, bool)> = Vec::new();
    let mut i: usize = 0;
    while i < a.len()
        invariant
            i <= a@.len(),
            r@ == a@.take(i as int),
        decreases a@.len() - i,
    {
        r.push(a[i]);
        assert(a@.take(i + 1) =~= a@.take(i as int).push(a@[i as int]));
        i = i + 1;
    }
    let mut j: usize = 0;
    assert(a@.take(a@.len() as int) =~= a@);
    while j < b.len()
        invariant
            j <= b@.len(),
            r@ == a@ + b@.take(j as int),
        decreases b@.len() - j,
    {
        r.push(b[j]);
        assert(b@.take(j + 1) =~= b@.take(j as int).push(b@[j as int]));
        assert(a@ + b@.take(j + 1) =~= (a@ + b@.take(j as int)).push(b@[j as int]));
        j = j + 1;
    }
    assert(b@.take(b@.len() as int) =~= b@);
    r
}

/// The insert statement for `table` with the given columns, each with whether its value is present.
pub fn insert_statement(table: &str, cols: &[(&str, bool)]) -> (sql: String)
    ensures
        sql@ == insert_statement_spec(table@, cols@),
{
    reveal(insert_statement_spec);
    let (names, marks, _) = present_columns(cols);
    let mut sql = owned("INSERT INTO ");
    push_all(&mut sql, table);
    push_all(&mut sql, " (");
    let a = join(&names, ",");
    push_all(&mut sql, a.as_str());
    push_all(&mut sql, ") VALUES (");
    let b = join(&marks, ",");
    push_all(&mut sql, b.as_str());
    push_all(&mut sql, ")");
    sql
}

/// The update statement for `table` with the given columns and condition.
pub fn update_statement(table: &str, cols: &[(&str, bool)], condition: &str) -> (sql: String)
    ensures
        sql@ == update_statement_spec(table@, cols@, condition@),
{
    reveal(update_statement_spec);
    let (_, _, sets) = present_columns(cols);
    let mut sql = owned("UPDATE ");
    push_all(&mut sql, table);
    push_all(&mut sql, " SET ");
    let a = join(&sets, ",");
    push_all(&mut sql, a.as_str());
    push_all(&mut sql, " WHERE ");
    push_all(&mut sql, condition);
    sql
}

impl TbClusterIpCidr {
    /// The columns of a stored address range, each with whether its value is present.
    pub open spec fn insert_columns(&self) -> Seq<(&str, bool)> {
        seq![
            ("id", self.id is Some),
            ("cluster_name", self.cluster_name is Some),
            ("ip", self.ip is Some),
            ("prefix_len", self.prefix_len is Some),
            ("`type`", self.ip_type is Some),
            ("start_time", self.start_time is Some),
            ("end_time", self.end_time is Some),
            ("gmt_create", self.gmt_create is Some),
            ("gmt_modified", self.gmt_modified is Some),
        ]
    }

    /// The statement that stores this row; absent values take the column default.
    pub fn insert_sql(&self) -> (sql: String)
        ensures
            sql@ == insert_statement_spec("tb_cluster_ip_cidr"@, self.insert_columns()),
    {
        let cols = [
            ("id", self.id.is_some()),
            ("cluster_name", self.cluster_name.is_some()),
            ("ip", self.ip.is_some()),
            ("prefix_len", self.prefix_len.is_some()),
            ("`type`", self.ip_type.is_some()),
            ("start_time", self.start_time.is_some()),
            ("end_time", self.end_time.is_some()),
            ("gmt_create", self.gmt_create.is_some()),
            ("gmt_modified", self.gmt_modified.is_some()),
        ];
        assert(cols@ =~= self.insert_columns());
        insert_statement("tb_cluster_ip_cidr", &cols)
    }

    /// The columns that `update_by_id` may set, each with whether its value is present.
    pub open spec fn update_by_id_columns(&self) -> Seq<(&str, bool)> {
        seq![
            ("cluster_name", self.cluster_name is Some),
            ("ip", self.ip is Some),
            ("prefix_len", self.prefix_len is Some),
            ("`type`", self.ip_type is Some),
            ("start_time", self.start_time is Some),
            ("end_time", self.end_time is Some),
            ("gmt_create", self.gmt_create is Some),
            ("gmt_modified", self.gmt_modified is Some),
        ]
    }

    /// The statement that updates the present columns of the matching row.
    pub fn update_by_id_sql(&self) -> (sql: String)
        ensures
            sql@ == update_statement_spec("tb_cluster_ip_cidr"@, self.update_by_id_columns(), "id = ?"@),
    {
        let cols = [
            ("cluster_name", self.cluster_name.is_some()),
            ("ip", self.ip.is_some()),
            ("prefix_len", self.prefix_len.is_some()),
            ("`type`", self.ip_type.is_some()),
            ("start_time", self.start_time.is_some()),
            ("end_time", self.end_time.is_some()),
            ("gmt_create", self.gmt_create.is_some()),
            ("gmt_modified", self.gmt_modified.is_some()),
        ];
        assert(cols@ =~= self.update_by_id_columns());
        update_statement("tb_cluster_ip_cidr", &cols, "id = ?")
    }
}


impl TbAigw {
    /// The columns that the insert statement may name, each with whether its value is present.
    pub open spec fn insert_columns(&self) -> Seq<(&str, bool)> {
        seq![
            ("id", self.id is Some),
            ("cluster_name", self.cluster_name is Some),
            ("ip", self.ip is Some),
            ("version", self.version is Some),
            ("os_name", self.os_name is Some),
            ("os_version", self.os_version is Some),
            ("os_arch", self.os_arch is Some),
            ("cpu_name", self.cpu_name is Some),
            ("cpu_vendor", self.cpu_vendor is Some),
            ("cpu_frequency", self.cpu_frequency is Some),
            ("cpu_nums", self.cpu_nums is Some),
            ("gmt_create", self.gmt_create is Some),
            ("gmt_modified", self.gmt_modified is Some),
        ]
    }

    /// The statement that stores this row; absent values take the column default.
    pub fn insert_sql(&self) -> (sql: String)
        ensures
            sql@ == insert_statement_spec("tb_aigw"@, self.insert_columns()),
    {
        let cols = [
            ("id", self.id.is_some()),
            ("cluster_name", self.cluster_name.is_some()),
            ("ip", self.ip.is_some()),
            ("version", self.version.is_some()),
            ("os_name", self.os_name.is_some()),
            ("os_version", self.os_version.is_some()),
            ("os_arch", self.os_arch.is_some()),
            ("cpu_name", self.cpu_name.is_some()),
            ("cpu_vendor", self.cpu_vendor.is_some()),
            ("cpu_frequency", self.cpu_frequency.is_some()),
            ("cpu_nums", self.cpu_nums.is_some()),
            ("gmt_create", self.gmt_create.is_some()),
            ("gmt_modified", self.gmt_modified.is_some()),
        ];
        assert(cols@ =~= self.insert_columns());
        insert_statement("tb_aigw", &cols)
    }

    /// The columns that `update_by_id` may set, each with whether its value is present.
    pub open spec fn update_by_id_columns(&self) -> Seq<(&str, bool)> {
        seq![
            ("cluster_name", self.cluster_name is Some),
            ("ip", self.ip is Some),
            ("version", self.version is Some),
            ("os_name", self.os_name is Some),
            ("os_version", self.os_version is Some),
            ("os_arch", self.os_arch is Some),
            ("cpu_name", self.cpu_name is Some),
            ("cpu_vendor", self.cpu_vendor is Some),
            ("cpu_frequency", self.cpu_frequency is Some),
            ("cpu_nums", self.cpu_nums is Some),
            ("gmt_create", self.gmt_create is Some),
            ("gmt_modified", self.gmt_modified is Some),
        ]
    }

    /// The statement that updates the present columns of the matching row.
    pub fn update_by_id_sql(&self) -> (sql: String)
        ensures
            sql@ == update_statement_spec("tb_aigw"@, self.update_by_id_columns(), "id = ?"@),
    {
        let cols = [
            ("cluster_name", self.cluster_name.is_some()),
            ("ip", self.ip.is_some()),
            ("version", self.version.is_some()),
            ("os_name", self.os_name.is_some()),
            ("os_version", self.os_version.is_some()),
            ("os_arch", self.os_arch.is_some()),
            ("cpu_name", self.cpu_name.is_some()),
            ("cpu_vendor", self.cpu_vendor.is_some()),
            ("cpu_frequency", self.cpu_frequency.is_some()),
            ("cpu_nums", self.cpu_nums.is_some()),
            ("gmt_create", self.gmt_create.is_some()),
            ("gmt_modified", self.gmt_modified.is_some()),
        ];
        assert(cols@ =~= self.update_by_id_columns());
        update_statement("tb_aigw", &cols, "id = ?")
    }
}

impl TbBackend {
    /// The columns that the insert statement may name, each with whether its value is present.
    pub open spec fn insert_columns(&self) -> Seq<(&str, bool)> {
        seq![
            ("id", self.id is Some),
            ("location_id", self.location_id is Some),
            ("host", self.host is Some),
            ("port", self.port is Some),
            ("gmt_create", self.gmt_create is Some),
            ("gmt_modified", self.gmt_modified is Some),
        ]
    }

    /// The statement that stores this row; absent values take the column default.
    pub fn insert_sql(&self) -> (sql: String)
        ensures
            sql@ == insert_statement_spec("tb_backend"@, self.insert_columns()),
    {
        let cols = [
            ("id", self.id.is_some()),
            ("location_id", self.location_id.is_some()),
            ("host", self.host.is_some()),
            ("port", self.port.is_some()),
            ("gmt_create", self.gmt_create.is_some()),
            ("gmt_modified", self.gmt_modified.is_some()),
        ];
        assert(cols@ =~= self.insert_columns());
        insert_statement("tb_backend", &cols)
    }
}

impl TbChangeLog {
    /// The columns that the insert statement may name, each with whether its value is present.
    pub open spec fn insert_columns(&self) -> Seq<(&str, bool)> {
        seq![
            ("id", self.id is Some),
            ("cluster_name", self.cluster_name is Some),
            ("log_type", self.log_type is Some),
            ("log_action", self.log_action is Some),
            ("data_id", self.data_id is Some),
            ("data", self.data is Some),
            ("expire_second", self.expire_second is Some),
            ("gmt_create", self.gmt_create is Some),
            ("gmt_modified", self.gmt_modified is Some),
        ]
    }

    /// The statement that stores this row; absent values take the column default.
    pub fn insert_sql(&self) -> (sql: String)
        ensures
            sql@ == insert_statement_spec("tb_change_log"@, self.insert_columns()),
    {
        let cols = [
            ("id", self.id.is_some()),
            ("cluster_name", self.cluster_name.is_some()),
            ("log_type", self.log_type.is_some()),
            ("log_action", self.log_action.is_some()),
            ("data_id", self.data_id.is_some()),
            ("data", self.data.is_some()),
            ("expire_second", self.expire_second.is_some()),
            ("gmt_create", self.gmt_create.is_some()),
            ("gmt_modified", self.gmt_modified.is_some()),
        ];
        assert(cols@ =~= self.insert_columns());
        insert_statement("tb_change_log", &cols)
    }
}

impl TbCluster {
    /// The columns that the insert statement may name, each with whether its value is present.
    pub open spec fn insert_columns(&self) -> Seq<(&str, bool)> {
        seq![
            ("id", self.id is Some),
            ("name", self.name is Some),
            ("security_key", self.security_key is Some),
            ("description", self.description is Some),
            ("gmt_create", self.gmt_create is Some),
            ("gmt_modified", self.gmt_modified is Some),
            ("enable", true),
            ("enable_default_site", true),
            ("enable_white_list", true),
            ("enable_block_list", true),
        ]
    }

    /// The statement that stores this row; absent values take the column default.
    pub fn insert_sql(&self) -> (sql: String)
        ensures
            sql@ == insert_statement_spec("tb_cluster"@, self.insert_columns()),
    {
        let cols = [
            ("id", self.id.is_some()),
            ("name", self.name.is_some()),
            ("security_key", self.security_key.is_some()),
            ("description", self.description.is_some()),
            ("gmt_create", self.gmt_create.is_some()),
            ("gmt_modified", self.gmt_modified.is_some()),
            ("enable", true),
            ("enable_default_site", true),
            ("enable_white_list", true),
            ("enable_block_list", true),
        ];
        assert(cols@ =~= self.insert_columns());
        insert_statement("tb_cluster", &cols)
    }

    /// The columns that `update_by_id` may set, each with whether its value is present.
    pub open spec fn update_by_id_columns(&self) -> Seq<(&str, bool)> {
        seq![
            ("name", self.name is Some),
            ("security_key", self.security_key is Some),
            ("description", self.description is Some),
            ("gmt_create", self.gmt_create is Some),
            ("gmt_modified", self.gmt_modified is Some),
            ("enable", true),
            ("enable_default_site", true),
            ("enable_white_list", true),
            ("enable_block_list", true),
        ]
    }

    /// The statement that updates the present columns of the matching row.
    pub fn update_by_id_sql(&self) -> (sql: String)
        ensures
            sql@ == update_statement_spec("tb_cluster"@, self.update_by_id_columns(), "id = ?"@),
    {
        let cols = [
            ("name", self.name.is_some()),
            ("security_key", self.security_key.is_some()),
            ("description", self.description.is_some()),
            ("gmt_create", self.gmt_create.is_some()),
            ("gmt_modified", self.gmt_modified.is_some()),
            ("enable", true),
            ("enable_default_site", true),
            ("enable_white_list", true),
            ("enable_block_list", true),
        ];
        assert(cols@ =~= self.update_by_id_columns());
        update_statement("tb_cluster", &cols, "id = ?")
    }

    /// The columns that `update_by_name` may set, each with whether its value is present.
    pub open spec fn update_by_name_columns(&self) -> Seq<(&str, bool)> {
        seq![
            ("name", self.name is Some),
            ("security_key", self.security_key is Some),
            ("description", self.description is Some),
            ("gmt_create", self.gmt_create is Some),
            ("gmt_modified", self.gmt_modified is Some),
            ("enable", true),
            ("enable_default_site", true),
            ("enable_white_list", true),
            ("enable_block_list", true),
        ]
    }

    /// The statement that updates the present columns of the matching row.
    pub fn update_by_name_sql(&self) -> (sql: String)
        ensures
            sql@ == update_statement_spec("tb_cluster"@, self.update_by_name_columns(), "name = ?"@),
    {
        let cols = [
            ("name", self.name.is_some()),
            ("security_key", self.security_key.is_some()),
            ("description", self.description.is_some()),
            ("gmt_create", self.gmt_create.is_some()),
            ("gmt_modified", self.gmt_modified.is_some()),
            ("enable", true),
            ("enable_default_site", true),
            ("enable_white_list", true),
            ("enable_block_list", true),
        ];
        assert(cols@ =~= self.update_by_name_columns());
        update_statement("tb_cluster", &cols, "name = ?")
    }
}

impl TbConsole {
    /// The columns that the insert statement may name, each with whether its value is present.
    pub open spec fn insert_columns(&self) -> Seq<(&str, bool)> {
        seq![
            ("id", self.id is Some),
            ("host", self.host is Some),
            ("port", self.port is Some),
            ("last_active_time", self.last_active_time is Some),
            ("gmt_create", self.gmt_create is Some),
            ("gmt_modified", self.gmt_modified is Some),
        ]
    }

    /// The statement that stores this row; absent values take the column default.
    pub fn insert_sql(&self) -> (sql: String)
        ensures
            sql@ == insert_statement_spec("tb_console"@, self.insert_columns()),
    {
        let cols = [
            ("id", self.id.is_some()),
            ("host", self.host.is_some()),
            ("port", self.port.is_some()),
            ("last_active_time", self.last_active_time.is_some()),
            ("gmt_create", self.gmt_create.is_some()),
            ("gmt_modified", self.gmt_modified.is_some()),
        ];
        assert(cols@ =~= self.insert_columns());
        insert_statement("tb_console", &cols)
    }

    /// The columns that `update_by_id` may set, each with whether its value is present.
    pub open spec fn update_by_id_columns(&self) -> Seq<(&str, bool)> {
        seq![
            ("host", self.host is Some),
            ("port", self.port is Some),
            ("last_active_time", self.last_active_time is Some),
            ("gmt_create", self.gmt_create is Some),
            ("gmt_modified", self.gmt_modified is Some),
        ]
    }

    /// The statement that updates the present columns of the matching row.
    pub fn update_by_id_sql(&self) -> (sql: String)
        ensures
            sql@ == update_statement_spec("tb_console"@, self.update_by_id_columns(), "id = ?"@),
    {
        let cols = [
            ("host", self.host.is_some()),
            ("port", self.port.is_some()),
            ("last_active_time", self.last_active_time.is_some()),
            ("gmt_create", self.gmt_create.is_some()),
            ("gmt_modified", self.gmt_modified.is_some()),
        ];
        assert(cols@ =~= self.update_by_id_columns());
        update_statement("tb_console", &cols, "id = ?")
    }
}

impl TbLocation {
    /// The columns that the insert statement may name, each with whether its value is present.
    #[verifier::opaque]
    pub open spec fn insert_columns_head(&self) -> Seq<(&str, bool)> {
        seq![
            ("id", self.id is Some),
            ("site_id", self.site_id is Some),
            ("location", self.location is Some),
            ("proxy", self.proxy is Some),
            ("protocol", self.protocol is Some),
            ("sni", self.sni is Some),
            ("client_max_body_size", self.client_max_body_size is Some),
            ("connection_timeout", self.connection_timeout is Some),
            ("read_timeout", self.read_timeout is Some),
            ("write_timeout", self.write_timeout is Some),
            ("idle_timeout", self.idle_timeout is Some),
            ("rewrite", self.rewrite is Some),
        ]
    }

    #[verifier::opaque]
    pub open spec fn insert_columns_tail(&self) -> Seq<(&str, bool)> {
        seq![
            ("http_version", self.http_version is Some),
            ("proxy_set_headers", self.proxy_set_headers is Some),
            ("proxy_add_headers", self.proxy_add_headers is Some),
            ("proxy_remove_headers", self.proxy_remove_headers is Some),
            ("response_set_headers", self.response_set_headers is Some),
            ("response_add_headers", self.response_add_headers is Some),
            ("response_remove_headers", self.response_remove_headers is Some),
            ("root_dir", self.root_dir is Some),
            ("auto_index", self.auto_index is Some),
            ("gmt_create", self.gmt_create is Some),
            ("gmt_modified", self.gmt_modified is Some),
        ]
    }

    /// The columns, each with whether its value is present.
    pub open spec fn insert_columns(&self) -> Seq<(&str, bool)> {
        self.insert_columns_head() + self.insert_columns_tail()
    }

    /// The statement that stores this row; absent values take the column default.
    pub fn insert_sql(&self) -> (sql: String)
        ensures
            sql@ == insert_statement_spec("tb_location"@, self.insert_columns()),
    {
        let first = [
            ("id", self.id.is_some()),
            ("site_id", self.site_id.is_some()),
            ("location", self.location.is_some()),
            ("proxy", self.proxy.is_some()),
            ("protocol", self.protocol.is_some()),
            ("sni", self.sni.is_some()),
            ("client_max_body_size", self.client_max_body_size.is_some()),
            ("connection_timeout", self.connection_timeout.is_some()),
            ("read_timeout", self.read_timeout.is_some()),
            ("write_timeout", self.write_timeout.is_some()),
            ("idle_timeout", self.idle_timeout.is_some()),
            ("rewrite", self.rewrite.is_some()),
        ];
        let second = [
            ("http_version", self.http_version.is_some()),
            ("proxy_set_headers", self.proxy_set_headers.is_some()),
            ("proxy_add_headers", self.proxy_add_headers.is_some()),
            ("proxy_remove_headers", self.proxy_remove_headers.is_some()),
            ("response_set_headers", self.response_set_headers.is_some()),
            ("response_add_headers", self.response_add_headers.is_some()),
            ("response_remove_headers", self.response_remove_headers.is_some()),
            ("root_dir", self.root_dir.is_some()),
            ("auto_index", self.auto_index.is_some()),
            ("gmt_create", self.gmt_create.is_some()),
            ("gmt_modified", self.gmt_modified.is_some()),
        ];
        assert(first@ =~= self.insert_columns_head()) by {
            reveal(TbLocation::insert_columns_head);
        }
        assert(second@ =~= self.insert_columns_tail()) by {
            reveal(TbLocation::insert_columns_tail);
        }
        let cols = concat_columns(&first, &second);
        insert_statement("tb_location", &cols)
    }

    /// The columns that `update_by_id` may set, each with whether its value is present.
    #[verifier::opaque]
    pub open spec fn update_by_id_columns_head(&self) -> Seq<(&str, bool)> {
        seq![
            ("site_id", self.site_id is Some),
            ("location", self.location is Some),
            ("proxy", self.proxy is Some),
            ("protocol", self.protocol is Some),
            ("sni", self.sni is Some),
            ("client_max_body_size", self.client_max_body_size is Some),
            ("connection_timeout", self.connection_timeout is Some),
            ("read_timeout", self.read_timeout is Some),
            ("write_timeout", self.write_timeout is Some),
            ("idle_timeout", self.idle_timeout is Some),
            ("rewrite", self.rewrite is Some),
            ("http_version", self.http_version is Some),
        ]
    }

    #[verifier::opaque]
    pub open spec fn update_by_id_columns_tail(&self) -> Seq<(&str, bool)> {
        seq![
            ("proxy_set_headers", self.proxy_set_headers is Some),
            ("proxy_add_headers", self.proxy_add_headers is Some),
            ("proxy_remove_headers", self.proxy_remove_headers is Some),
            ("response_set_headers", self.response_set_headers is Some),
            ("response_add_headers", self.response_add_headers is Some),
            ("response_remove_headers", self.response_remove_headers is Some),
            ("root_dir", self.root_dir is Some),
            ("auto_index", self.auto_index is Some),
            ("gmt_create", self.gmt_create is Some),
            ("gmt_modified", self.gmt_modified is Some),
        ]
    }

    /// The columns, each with whether its value is present.
    pub open spec fn update_by_id_columns(&self) -> Seq<(&str, bool)> {
        self.update_by_id_columns_head() + self.update_by_id_columns_tail()
    }

    /// The statement that updates the present columns of the matching row.
    pub fn update_by_id_sql(&self) -> (sql: String)
        ensures
            sql@ == update_statement_spec("tb_location"@, self.update_by_id_columns(), "id = ?"@),
    {
        let first = [
            ("site_id", self.site_id.is_some()),
            ("location", self.location.is_some()),
            ("proxy", self.proxy.is_some()),
            ("protocol", self.protocol.is_some()),
            ("sni", self.sni.is_some()),
            ("client_max_body_size", self.client_max_body_size.is_some()),
            ("connection_timeout", self.connection_timeout.is_some()),
            ("read_timeout", self.read_timeout.is_some()),
            ("write_timeout", self.write_timeout.is_some()),
            ("idle_timeout", self.idle_timeout.is_some()),
            ("rewrite", self.rewrite.is_some()),
            ("http_version", self.http_version.is_some()),
        ];
        let second = [
            ("proxy_set_headers", self.proxy_set_headers.is_some()),
            ("proxy_add_headers", self.proxy_add_headers.is_some()),
            ("proxy_remove_headers", self.proxy_remove_headers.is_some()),
            ("response_set_headers", self.response_set_headers.is_some()),
            ("response_add_headers", self.response_add_headers.is_some()),
            ("response_remove_headers", self.response_remove_headers.is_some()),
            ("root_dir", self.root_dir.is_some()),
            ("auto_index", self.auto_index.is_some()),
            ("gmt_create", self.gmt_create.is_some()),
            ("gmt_modified", self.gmt_modified.is_some()),
        ];
        assert(first@ =~= self.update_by_id_columns_head()) by {
            reveal(TbLocation::update_by_id_columns_head);
        }
        assert(second@ =~= self.update_by_id_columns_tail()) by {
            reveal(TbLocation::update_by_id_columns_tail);
        }
        let cols = concat_columns(&first, &second);
        update_statement("tb_location", &cols, "id = ?")
    }
}

impl TbSession {
    /// The columns that the insert statement may name, each with whether its value is present.
    pub open spec fn insert_columns(&self) -> Seq<(&str, bool)> {
        seq![
            ("id", self.id is Some),
            ("user", self.user is Some),
            ("email", self.email is Some),
            ("login_ip", self.login_ip is Some),
            ("token", self.token is Some),
            ("gmt_create", self.gmt_create is Some),
            ("gmt_modified", self.gmt_modified is Some),
        ]
    }

    /// The statement that stores this row; absent values take the column default.
    pub fn insert_sql(&self) -> (sql: String)
        ensures
            sql@ == insert_statement_spec("tb_session"@, self.insert_columns()),
    {
        let cols = [
            ("id", self.id.is_some()),
            ("user", self.user.is_some()),
            ("email", self.email.is_some()),
            ("login_ip", self.login_ip.is_some()),
            ("token", self.token.is_some()),
            ("gmt_create", self.gmt_create.is_some()),
            ("gmt_modified", self.gmt_modified.is_some()),
        ];
        assert(cols@ =~= self.insert_columns());
        insert_statement("tb_session", &cols)
    }

    /// The columns that `update_by_token` may set, each with whether its value is present.
    pub open spec fn update_by_token_columns(&self) -> Seq<(&str, bool)> {
        seq![
            ("user", self.user is Some),
            ("email", self.email is Some),
            ("login_ip", self.login_ip is Some),
            ("token", self.token is Some),
            ("gmt_create", self.gmt_create is Some),
            ("gmt_modified", self.gmt_modified is Some),
        ]
    }

    /// The statement that updates the present columns of the matching row.
    pub fn update_by_token_sql(&self) -> (sql: String)
        ensures
            sql@ == update_statement_spec("tb_session"@, self.update_by_token_columns(), "token = ?"@),
    {
        let cols = [
            ("user", self.user.is_some()),
            ("email", self.email.is_some()),
            ("login_ip", self.login_ip.is_some()),
            ("token", self.token.is_some()),
            ("gmt_create", self.gmt_create.is_some()),
            ("gmt_modified", self.gmt_modified.is_some()),
        ];
        assert(cols@ =~= self.update_by_token_columns());
        update_statement("tb_session", &cols, "token = ?")
    }
}

impl TbSite {
    /// The columns that the insert statement may name, each with whether its value is present.
    pub open spec fn insert_columns(&self) -> Seq<(&str, bool)> {
        seq![
            ("id", self.id is Some),
            ("cluster_name", self.cluster_name is Some),
            ("name", self.name is Some),
            ("alt_names", self.alt_names is Some),
            ("root_dir", self.root_dir is Some),
            ("tls_cert", self.tls_cert is Some),
            ("tls_cert_start_date", self.tls_cert_start_date is Some),
            ("tls_cert_end_date", self.tls_cert_end_date is Some),
            ("tls_private_key", self.tls_private_key is Some),
            ("rate_limit", self.rate_limit is Some),
            ("rate_limit_unit", self.rate_limit_unit is Some),
            ("gmt_create", self.gmt_create is Some),
            ("gmt_modified", self.gmt_modified is Some),
            ("auto_index", true),
            ("tls_on", true),
            ("tls_enforce", true),
            ("acme_on", true),
        ]
    }

    /// The statement that stores this row; absent values take the column default.
    pub fn insert_sql(&self) -> (sql: String)
        ensures
            sql@ == insert_statement_spec("tb_site"@, self.insert_columns()),
    {
        let cols = [
            ("id", self.id.is_some()),
            ("cluster_name", self.cluster_name.is_some()),
            ("name", self.name.is_some()),
            ("alt_names", self.alt_names.is_some()),
            ("root_dir", self.root_dir.is_some()),
            ("tls_cert", self.tls_cert.is_some()),
            ("tls_cert_start_date", self.tls_cert_start_date.is_some()),
            ("tls_cert_end_date", self.tls_cert_end_date.is_some()),
            ("tls_private_key", self.tls_private_key.is_some()),
            ("rate_limit", self.rate_limit.is_some()),
            ("rate_limit_unit", self.rate_limit_unit.is_some()),
            ("gmt_create", self.gmt_create.is_some()),
            ("gmt_modified", self.gmt_modified.is_some()),
            ("auto_index", true),
            ("tls_on", true),
            ("tls_enforce", true),
            ("acme_on", true),
        ];
        assert(cols@ =~= self.insert_columns());
        insert_statement("tb_site", &cols)
    }

    /// The columns that `update_by_name` may set, each with whether its value is present.
    pub open spec fn update_by_name_columns(&self) -> Seq<(&str, bool)> {
        seq![
            ("cluster_name", self.cluster_name is Some),
            ("name", self.name is Some),
            ("alt_names", self.alt_names is Some),
            ("root_dir", self.root_dir is Some),
            ("tls_cert", self.tls_cert is Some),
            ("tls_cert_start_date", self.tls_cert_start_date is Some),
            ("tls_cert_end_date", self.tls_cert_end_date is Some),
            ("tls_private_key", self.tls_private_key is Some),
            ("rate_limit", self.rate_limit is Some),
            ("rate_limit_unit", self.rate_limit_unit is Some),
            ("gmt_create", self.gmt_create is Some),
            ("gmt_modified", self.gmt_modified is Some),
            ("auto_index", true),
            ("tls_on", true),
            ("tls_enforce", true),
            ("acme_on", true),
        ]
    }

    /// The statement that updates the present columns of the matching row.
    pub fn update_by_name_sql(&self) -> (sql: String)
        ensures
            sql@ == update_statement_spec("tb_site"@, self.update_by_name_columns(), "name = ?"@),
    {
        let cols = [
            ("cluster_name", self.cluster_name.is_some()),
            ("name", self.name.is_some()),
            ("alt_names", self.alt_names.is_some()),
            ("root_dir", self.root_dir.is_some()),
            ("tls_cert", self.tls_cert.is_some()),
            ("tls_cert_start_date", self.tls_cert_start_date.is_some()),
            ("tls_cert_end_date", self.tls_cert_end_date.is_some()),
            ("tls_private_key", self.tls_private_key.is_some()),
            ("rate_limit", self.rate_limit.is_some()),
            ("rate_limit_unit", self.rate_limit_unit.is_some()),
            ("gmt_create", self.gmt_create.is_some()),
            ("gmt_modified", self.gmt_modified.is_some()),
            ("auto_index", true),
            ("tls_on", true),
            ("tls_enforce", true),
            ("acme_on", true),
        ];
        assert(cols@ =~= self.update_by_name_columns());
        update_statement("tb_site", &cols, "name = ?")
    }
}

impl TbTask {
    /// The columns that the insert statement may name, each with whether its value is present.
    pub open spec fn insert_columns(&self) -> Seq<(&str, bool)> {
        seq![
            ("id", self.id is Some),
            ("name", self.name is Some),
            ("type", self.task_type is Some),
            ("last_time", self.last_time is Some),
            ("gmt_create", self.gmt_create is Some),
            ("gmt_modified", self.gmt_modified is Some),
        ]
    }

    /// The statement that stores this row; absent values take the column default.
    pub fn insert_sql(&self) -> (sql: String)
        ensures
            sql@ == insert_statement_spec("tb_task"@, self.insert_columns()),
    {
        let cols = [
            ("id", self.id.is_some()),
            ("name", self.name.is_some()),
            ("type", self.task_type.is_some()),
            ("last_time", self.last_time.is_some()),
            ("gmt_create", self.gmt_create.is_some()),
            ("gmt_modified", self.gmt_modified.is_some()),
        ];
        assert(cols@ =~= self.insert_columns());
        insert_statement("tb_task", &cols)
    }

    /// The columns that `update_by_name_and_type` may set, each with whether its value is present.
    pub open spec fn update_by_name_and_type_columns(&self) -> Seq<(&str, bool)> {
        seq![
            ("name", self.name is Some),
            ("type", self.task_type is Some),
            ("last_time", self.last_time is Some),
            ("gmt_create", self.gmt_create is Some),
            ("gmt_modified", self.gmt_modified is Some),
        ]
    }

    /// The statement that updates the present columns of the matching row.
    pub fn update_by_name_and_type_sql(&self) -> (sql: String)
        ensures
            sql@ == update_statement_spec("tb_task"@, self.update_by_name_and_type_columns(), "name = ? AND type = ?"@),
    {
        let cols = [
            ("name", self.name.is_some()),
            ("type", self.task_type.is_some()),
            ("last_time", self.last_time.is_some()),
            ("gmt_create", self.gmt_create.is_some()),
            ("gmt_modified", self.gmt_modified.is_some()),
        ];
        assert(cols@ =~= self.update_by_name_and_type_columns());
        update_statement("tb_task", &cols, "name = ? AND type = ?")
    }
}

impl TbUser {
    /// The columns that the insert statement may name, each with whether its value is present.
    pub open spec fn insert_columns(&self) -> Seq<(&str, bool)> {
        seq![
            ("id", self.id is Some),
            ("name", self.name is Some),
            ("email", self.email is Some),
            ("password", self.password is Some),
            ("real_name", self.real_name is Some),
            ("ext_info", self.ext_info is Some),
            ("gmt_create", self.gmt_create is Some),
            ("gmt_modified", self.gmt_modified is Some),
        ]
    }

    /// The statement that stores this row; absent values take the column default.
    pub fn insert_sql(&self) -> (sql: String)
        ensures
            sql@ == insert_statement_spec("tb_user"@, self.insert_columns()),
    {
        let cols = [
            ("id", self.id.is_some()),
            ("name", self.name.is_some()),
            ("email", self.email.is_some()),
            ("password", self.password.is_some()),
            ("real_name", self.real_name.is_some()),
            ("ext_info", self.ext_info.is_some()),
            ("gmt_create", self.gmt_create.is_some()),
            ("gmt_modified", self.gmt_modified.is_some()),
        ];
        assert(cols@ =~= self.insert_columns());
        insert_statement("tb_user", &cols)
    }

    /// The columns that `update_by_name` may set, each with whether its value is present.
    pub open spec fn update_by_name_columns(&self) -> Seq<(&str, bool)> {
        seq![
            ("name", self.name is Some),
            ("email", self.email is Some),
            ("password", self.password is Some),
            ("real_name", self.real_name is Some),
            ("ext_info", self.ext_info is Some),
            ("gmt_create", self.gmt_create is Some),
            ("gmt_modified", self.gmt_modified is Some),
        ]
    }

    /// The statement that updates the present columns of the matching row.
    pub fn update_by_name_sql(&self) -> (sql: String)
        ensures
            sql@ == update_statement_spec("tb_user"@, self.update_by_name_columns(), "name = ?"@),
    {
        let cols = [
            ("name", self.name.is_some()),
            ("email", self.email.is_some()),
            ("password", self.password.is_some()),
            ("real_name", self.real_name.is_some()),
            ("ext_info", self.ext_info.is_some()),
            ("gmt_create", self.gmt_create.is_some()),
            ("gmt_modified", self.gmt_modified.is_some()),
        ];
        assert(cols@ =~= self.update_by_name_columns());
        update_statement("tb_user", &cols, "name = ?")
    }

    /// The columns that `update_by_email` may set, each with whether its value is present.
    pub open spec fn update_by_email_columns(&self) -> Seq<(&str, bool)> {
        seq![
            ("name", self.name is Some),
            ("email", self.email is Some),
            ("password", self.password is Some),
            ("real_name", self.real_name is Some),
            ("ext_info", self.ext_info is Some),
            ("gmt_create", self.gmt_create is Some),
            ("gmt_modified", self.gmt_modified is Some),
        ]
    }

    /// The statement that updates the present columns of the matching row.
    pub fn update_by_email_sql(&self) -> (sql: String)
        ensures
            sql@ == update_statement_spec("tb_user"@, self.update_by_email_columns(), "email = ?"@),
    {
        let cols = [
            ("name", self.name.is_some()),
            ("email", self.email.is_some()),
            ("password", self.password.is_some()),
            ("real_name", self.real_name.is_some()),
            ("ext_info", self.ext_info.is_some()),
            ("gmt_create", self.gmt_create.is_some()),
            ("gmt_modified", self.gmt_modified.is_some()),
        ];
        assert(cols@ =~= self.update_by_email_columns());
        update_statement("tb_user", &cols, "email = ?")
    }
}

} // verus!
