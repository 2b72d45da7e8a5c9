//! The values bound to the placeholders of the statements in `sql`: one per
//! present column, in the statement's column order, then the values of the
//! condition. Times are bound as whole seconds since the Unix epoch.

use vstd::prelude::*;
use crate::sql::present_names;
use crate::records::{
    TbAigw, TbBackend, TbChangeLog, TbCluster, TbClusterIpCidr, TbConsole, TbLocation, TbSession,
    TbSite, TbTask, TbUser,
};

verus! {

/// A value bound to a placeholder.
#[derive(Debug, PartialEq, Eq)]
pub enum SqlValue {
    I64(i64),
    I32(i32),
    I8(i8),
    Bool(bool),
    Text(String),
    /// A point in time, in seconds since the Unix epoch.
    Time(i64),
}

pub open spec fn text_value(o: Option<String>) -> Option<SqlValue> {
    match o {
        Some(s) => Some(SqlValue::Text(s)),
        None => None,
    }
}

pub open spec fn i64_value(o: Option<i64>) -> Option<SqlValue> {
    match o {
        Some(x) => Some(SqlValue::I64(x)),
        None => None,
    }
}

pub open spec fn i32_value(o: Option<i32>) -> Option<SqlValue> {
    match o {
        Some(x) => Some(SqlValue::I32(x)),
        None => None,
    }
}

pub open spec fn i8_value(o: Option<i8>) -> Option<SqlValue> {
    match o {
        Some(x) => Some(SqlValue::I8(x)),
        None => None,
    }
}

pub open spec fn time_value(o: Option<i64>) -> Option<SqlValue> {
    match o {
        Some(x) => Some(SqlValue::Time(x)),
        None => None,
    }
}

fn text_of(o: &Option<String>) -> (r: Option<SqlValue>)
    ensures
        r == text_value(*o),
{
    match o {
        Some(s) => Some(SqlValue::Text(s.clone())),
        None => None,
    }
}

fn i64_of(o: &Option<i64>) -> (r: Option<SqlValue>)
    ensures
        r == i64_value(*o),
{
    match o {
        Some(x) => Some(SqlValue::I64(*x)),
        None => None,
    }
}

fn i32_of(o: &Option<i32>) -> (r: Option<SqlValue>)
    ensures
        r == i32_value(*o),
{
    match o {
        Some(x) => Some(SqlValue::I32(*x)),
        None => None,
    }
}

fn i8_of(o: &Option<i8>) -> (r: Option<SqlValue>)
    ensures
        r == i8_value(*o),
{
    match o {
        Some(x) => Some(SqlValue::I8(*x)),
        None => None,
    }
}

fn time_of(o: &Option<i64>) -> (r: Option<SqlValue>)
    ensures
        r == time_value(*o),
{
    match o {
        Some(x) => Some(SqlValue::Time(*x)),
        None => None,
    }
}

/// The present values, in order.
pub open spec fn present_values(fields: Seq<Option<SqlValue>>) -> Seq<SqlValue>
    decreases fields.len(),
{
    if fields.len() == 0 {
        Seq::empty()
    } else {
        let prev = present_values(fields.drop_last());
        match fields.last() {
            Some(v) => prev.push(v),
            None => prev,
        }
    }
}

/// The values line up with the columns: one per column, present exactly
/// where the column is named.
pub open spec fn columns_bind(cols: Seq<(&str, bool)>, fields: Seq<Option<SqlValue>>) -> bool {
    &&& cols.len() == fields.len()
    &&& forall|i: int| 0 <= i < cols.len() ==> (#[trigger] cols[i]).1 == (fields[i] is Some)
}

/// Where the values line up with the columns, there is one present value
/// per column that the statement names.
pub proof fn lemma_one_value_per_placeholder(cols: Seq<(&str, bool)>, fields: Seq<Option<SqlValue>>)
    requires
        columns_bind(cols, fields),
    ensures
        present_values(fields).len() == present_names(cols).len(),
    decreases cols.len(),
{
    if cols.len() > 0 {
        let c = cols.drop_last();
        let f = fields.drop_last();
        assert forall|i: int| 0 <= i < c.len() implies (#[trigger] c[i]).1 == (f[i] is Some) by {
            assert(c[i] == cols[i]);
        }
        lemma_one_value_per_placeholder(c, f);
        assert(cols.last() == cols[cols.len() - 1]);
    }
}

/// Values that line up with two runs of columns line up with both together.
proof fn lemma_columns_bind_concat(
    c1: Seq<(&str, bool)>,
    f1: Seq<Option<SqlValue>>,
    c2: Seq<(&str, bool)>,
    f2: Seq<Option<SqlValue>>,
)
    requires
        columns_bind(c1, f1),
        columns_bind(c2, f2),
    ensures
        columns_bind(c1 + c2, f1 + f2),
{
    assert forall|i: int| 0 <= i < (c1 + c2).len() implies (#[trigger] (c1 + c2)[i]).1 == ((f1 + f2)[i] is Some) by {
        if i < c1.len() {
            assert(c1[i] == (c1 + c2)[i]);
        } else {
            assert(c2[i - c1.len()] == (c1 + c2)[i]);
        }
    }
}

/// The present values of `fields`, in order.
fn present_of(fields: Vec<Option<SqlValue>>) -> (r: Vec<SqlValue>)
    ensures
        r@ == present_values(fields@),
{
    let mut r: Vec<SqlValue> = Vec::new();
    let mut fields = fields;
    let ghost all = fields@;
    let mut rest: Vec<Option<SqlValue>> = Vec::new();
    while fields.len() > 0
        invariant
            all == fields@ + rest@.reverse(),
        decreases fields@.len(),
    {
        let f = fields.pop().unwrap();
        let ghost before = rest@;
        rest.push(f);
        assert(rest@.reverse() =~= seq![f] + before.reverse());
        assert(all =~= fields@ + rest@.reverse());
    }
    assert(all =~= rest@.reverse());
    while rest.len() > 0
        invariant
            all =~= all.take(all.len() - rest@.len()) + rest@.reverse(),
            r@ == present_values(all.take(all.len() - rest@.len())),
            rest@.len() <= all.len(),
        decreases rest@.len(),
    {
        let ghost k = all.len() - rest@.len();
        let f = rest.pop().unwrap();
        assert(all[k] == f);
        assert(all.take(k + 1).drop_last() =~= all.take(k));
        assert(all.take(k + 1).last() == f);
        match f {
            Some(v) => r.push(v),
            None => {}
        }
        assert(all =~= all.take(all.len() - rest@.len()) + rest@.reverse());
    }
    assert(all.take(all.len() as int) =~= all);
    r
}

impl TbClusterIpCidr {
    /// The values of the insert statement, column by column (none where the column is left out).
    pub open spec fn insert_fields(&self) -> Seq<Option<SqlValue>> {
        seq![
            i64_value(self.id),
            text_value(self.cluster_name),
            text_value(self.ip),
            i32_value(self.prefix_len),
            i8_value(self.ip_type),
            time_value(self.start_time),
            time_value(self.end_time),
            time_value(self.gmt_create),
            time_value(self.gmt_modified),
        ]
    }

    proof fn lemma_insert_columns_bind(&self)
        ensures
            columns_bind(self.insert_columns(), self.insert_fields()),
    {
        assert(self.insert_columns().len() == self.insert_fields().len());
    }

    /// The values bound to the insert statement: the present ones, in column order.
    pub fn insert_values(&self) -> (r: Vec<SqlValue>)
        ensures
            columns_bind(self.insert_columns(), self.insert_fields()),
            r@ == present_values(self.insert_fields()),
    {
        let fields = vec![
            i64_of(&self.id),
            text_of(&self.cluster_name),
            text_of(&self.ip),
            i32_of(&self.prefix_len),
            i8_of(&self.ip_type),
            time_of(&self.start_time),
            time_of(&self.end_time),
            time_of(&self.gmt_create),
            time_of(&self.gmt_modified),
        ];
        assert(fields@ =~= self.insert_fields());
        proof { self.lemma_insert_columns_bind(); }
        let r = present_of(fields);
        r
    }

    /// The values of the `update_by_id` statement's SET list, column by column (none where the column is left out).
    pub open spec fn update_by_id_fields(&self) -> Seq<Option<SqlValue>> {
        seq![
            text_value(self.cluster_name),
            text_value(self.ip),
            i32_value(self.prefix_len),
            i8_value(self.ip_type),
            time_value(self.start_time),
            time_value(self.end_time),
            time_value(self.gmt_create),
            time_value(self.gmt_modified),
        ]
    }

    proof fn lemma_update_by_id_columns_bind(&self)
        ensures
            columns_bind(self.update_by_id_columns(), self.update_by_id_fields()),
    {
        assert(self.update_by_id_columns().len() == self.update_by_id_fields().len());
    }

    /// The values bound to the `update_by_id` statement: the present SET values in
    /// column order, then `id`.
    pub fn update_by_id_values(&self, id: i64) -> (r: Vec<SqlValue>)
        ensures
            columns_bind(self.update_by_id_columns(), self.update_by_id_fields()),
            r@ == present_values(self.update_by_id_fields()).push(SqlValue::I64(id)),
    {
        let fields = vec![
            text_of(&self.cluster_name),
            text_of(&self.ip),
            i32_of(&self.prefix_len),
            i8_of(&self.ip_type),
            time_of(&self.start_time),
            time_of(&self.end_time),
            time_of(&self.gmt_create),
            time_of(&self.gmt_modified),
        ];
        assert(fields@ =~= self.update_by_id_fields());
        proof { self.lemma_update_by_id_columns_bind(); }
        let mut r = present_of(fields);
        r.push(SqlValue::I64(id));
        r
    }

}

impl TbAigw {
    /// The values of the insert statement, column by column (none where the column is left out).
    pub open spec fn insert_fields(&self) -> Seq<Option<SqlValue>> {
        seq![
            i64_value(self.id),
            text_value(self.cluster_name),
            text_value(self.ip),
            text_value(self.version),
            text_value(self.os_name),
            text_value(self.os_version),
            text_value(self.os_arch),
            text_value(self.cpu_name),
            text_value(self.cpu_vendor),
            i64_value(self.cpu_frequency),
            i32_value(self.cpu_nums),
            time_value(self.gmt_create),
            time_value(self.gmt_modified),
        ]
    }

    #[verifier::rlimit(80)]
    proof fn lemma_insert_columns_bind(&self)
        ensures
            columns_bind(self.insert_columns(), self.insert_fields()),
    {
        assert(self.insert_columns().len() == self.insert_fields().len());
    }

    /// The values bound to the insert statement: the present ones, in column order.
    #[verifier::spinoff_prover]
    pub fn insert_values(&self) -> (r: Vec<SqlValue>)
        ensures
            columns_bind(self.insert_columns(), self.insert_fields()),
            r@ == present_values(self.insert_fields()),
    {
        let fields = vec![
            i64_of(&self.id),
            text_of(&self.cluster_name),
            text_of(&self.ip),
            text_of(&self.version),
            text_of(&self.os_name),
            text_of(&self.os_version),
            text_of(&self.os_arch),
            text_of(&self.cpu_name),
            text_of(&self.cpu_vendor),
            i64_of(&self.cpu_frequency),
            i32_of(&self.cpu_nums),
            time_of(&self.gmt_create),
            time_of(&self.gmt_modified),
        ];
        assert(fields@ =~= self.insert_fields());
        proof { self.lemma_insert_columns_bind(); }
        let r = present_of(fields);
        r
    }

    /// The values of the `update_by_id` statement's SET list, column by column (none where the column is left out).
    pub open spec fn update_by_id_fields(&self) -> Seq<Option<SqlValue>> {
        seq![
            text_value(self.cluster_name),
            text_value(self.ip),
            text_value(self.version),
            text_value(self.os_name),
            text_value(self.os_version),
            text_value(self.os_arch),
            text_value(self.cpu_name),
            text_value(self.cpu_vendor),
            i64_value(self.cpu_frequency),
            i32_value(self.cpu_nums),
            time_value(self.gmt_create),
            time_value(self.gmt_modified),
        ]
    }

    proof fn lemma_update_by_id_columns_bind(&self)
        ensures
            columns_bind(self.update_by_id_columns(), self.update_by_id_fields()),
    {
        assert(self.update_by_id_columns().len() == self.update_by_id_fields().len());
    }

    /// The values bound to the `update_by_id` statement: the present SET values in
    /// column order, then `id`.
    pub fn update_by_id_values(&self, id: i64) -> (r: Vec<SqlValue>)
        ensures
            columns_bind(self.update_by_id_columns(), self.update_by_id_fields()),
            r@ == present_values(self.update_by_id_fields()).push(SqlValue::I64(id)),
    {
        let fields = vec![
            text_of(&self.cluster_name),
            text_of(&self.ip),
            text_of(&self.version),
            text_of(&self.os_name),
            text_of(&self.os_version),
            text_of(&self.os_arch),
            text_of(&self.cpu_name),
            text_of(&self.cpu_vendor),
            i64_of(&self.cpu_frequency),
            i32_of(&self.cpu_nums),
            time_of(&self.gmt_create),
            time_of(&self.gmt_modified),
        ];
        assert(fields@ =~= self.update_by_id_fields());
        proof { self.lemma_update_by_id_columns_bind(); }
        let mut r = present_of(fields);
        r.push(SqlValue::I64(id));
        r
    }

}

impl TbBackend {
    /// The values of the insert statement, column by column (none where the column is left out).
    pub open spec fn insert_fields(&self) -> Seq<Option<SqlValue>> {
        seq![
            i64_value(self.id),
            i64_value(self.location_id),
            text_value(self.host),
            i32_value(self.port),
            time_value(self.gmt_create),
            time_value(self.gmt_modified),
        ]
    }

    proof fn lemma_insert_columns_bind(&self)
        ensures
            columns_bind(self.insert_columns(), self.insert_fields()),
    {
        assert(self.insert_columns().len() == self.insert_fields().len());
    }

    /// The values bound to the insert statement: the present ones, in column order.
    pub fn insert_values(&self) -> (r: Vec<SqlValue>)
        ensures
            columns_bind(self.insert_columns(), self.insert_fields()),
            r@ == present_values(self.insert_fields()),
    {
        let fields = vec![
            i64_of(&self.id),
            i64_of(&self.location_id),
            text_of(&self.host),
            i32_of(&self.port),
            time_of(&self.gmt_create),
            time_of(&self.gmt_modified),
        ];
        assert(fields@ =~= self.insert_fields());
        proof { self.lemma_insert_columns_bind(); }
        let r = present_of(fields);
        r
    }

}

impl TbChangeLog {
    /// The values of the insert statement, column by column (none where the column is left out).
    pub open spec fn insert_fields(&self) -> Seq<Option<SqlValue>> {
        seq![
            i64_value(self.id),
            text_value(self.cluster_name),
            i32_value(self.log_type),
            i32_value(self.log_action),
            i64_value(self.data_id),
            text_value(self.data),
            i32_value(self.expire_second),
            time_value(self.gmt_create),
            time_value(self.gmt_modified),
        ]
    }

    proof fn lemma_insert_columns_bind(&self)
        ensures
            columns_bind(self.insert_columns(), self.insert_fields()),
    {
        assert(self.insert_columns().len() == self.insert_fields().len());
    }

    /// The values bound to the insert statement: the present ones, in column order.
    pub fn insert_values(&self) -> (r: Vec<SqlValue>)
        ensures
            columns_bind(self.insert_columns(), self.insert_fields()),
            r@ == present_values(self.insert_fields()),
    {
        let fields = vec![
            i64_of(&self.id),
            text_of(&self.cluster_name),
            i32_of(&self.log_type),
            i32_of(&self.log_action),
            i64_of(&self.data_id),
            text_of(&self.data),
            i32_of(&self.expire_second),
            time_of(&self.gmt_create),
            time_of(&self.gmt_modified),
        ];
        assert(fields@ =~= self.insert_fields());
        proof { self.lemma_insert_columns_bind(); }
        let r = present_of(fields);
        r
    }

}

impl TbCluster {
    /// The values of the insert statement, column by column (none where the column is left out).
    pub open spec fn insert_fields(&self) -> Seq<Option<SqlValue>> {
        seq![
            i64_value(self.id),
            text_value(self.name),
            text_value(self.security_key),
            text_value(self.description),
            time_value(self.gmt_create),
            time_value(self.gmt_modified),
            Some(SqlValue::Bool(self.enable)),
            Some(SqlValue::Bool(self.enable_default_site)),
            Some(SqlValue::Bool(self.enable_white_list)),
            Some(SqlValue::Bool(self.enable_block_list)),
        ]
    }

    proof fn lemma_insert_columns_bind(&self)
        ensures
            columns_bind(self.insert_columns(), self.insert_fields()),
    {
        assert(self.insert_columns().len() == self.insert_fields().len());
    }

    /// The values bound to the insert statement: the present ones, in column order.
    pub fn insert_values(&self) -> (r: Vec<SqlValue>)
        ensures
            columns_bind(self.insert_columns(), self.insert_fields()),
            r@ == present_values(self.insert_fields()),
    {
        let fields = vec![
            i64_of(&self.id),
            text_of(&self.name),
            text_of(&self.security_key),
            text_of(&self.description),
            time_of(&self.gmt_create),
            time_of(&self.gmt_modified),
            Some(SqlValue::Bool(self.enable)),
            Some(SqlValue::Bool(self.enable_default_site)),
            Some(SqlValue::Bool(self.enable_white_list)),
            Some(SqlValue::Bool(self.enable_block_list)),
        ];
        assert(fields@ =~= self.insert_fields());
        proof { self.lemma_insert_columns_bind(); }
        let r = present_of(fields);
        r
    }

    /// The values of the `update_by_id` statement's SET list, column by column (none where the column is left out).
    pub open spec fn update_by_id_fields(&self) -> Seq<Option<SqlValue>> {
        seq![
            text_value(self.name),
            text_value(self.security_key),
            text_value(self.description),
            time_value(self.gmt_create),
            time_value(self.gmt_modified),
            Some(SqlValue::Bool(self.enable)),
            Some(SqlValue::Bool(self.enable_default_site)),
            Some(SqlValue::Bool(self.enable_white_list)),
            Some(SqlValue::Bool(self.enable_block_list)),
        ]
    }

    proof fn lemma_update_by_id_columns_bind(&self)
        ensures
            columns_bind(self.update_by_id_columns(), self.update_by_id_fields()),
    {
        assert(self.update_by_id_columns().len() == self.update_by_id_fields().len());
    }

    /// The values bound to the `update_by_id` statement: the present SET values in
    /// column order, then `id`.
    pub fn update_by_id_values(&self, id: i64) -> (r: Vec<SqlValue>)
        ensures
            columns_bind(self.update_by_id_columns(), self.update_by_id_fields()),
            r@ == present_values(self.update_by_id_fields()).push(SqlValue::I64(id)),
    {
        let fields = vec![
            text_of(&self.name),
            text_of(&self.security_key),
            text_of(&self.description),
            time_of(&self.gmt_create),
            time_of(&self.gmt_modified),
            Some(SqlValue::Bool(self.enable)),
            Some(SqlValue::Bool(self.enable_default_site)),
            Some(SqlValue::Bool(self.enable_white_list)),
            Some(SqlValue::Bool(self.enable_block_list)),
        ];
        assert(fields@ =~= self.update_by_id_fields());
        proof { self.lemma_update_by_id_columns_bind(); }
        let mut r = present_of(fields);
        r.push(SqlValue::I64(id));
        r
    }

    /// The values of the `update_by_name` statement's SET list, column by column (none where the column is left out).
    pub open spec fn update_by_name_fields(&self) -> Seq<Option<SqlValue>> {
        seq![
            text_value(self.name),
            text_value(self.security_key),
            text_value(self.description),
            time_value(self.gmt_create),
            time_value(self.gmt_modified),
            Some(SqlValue::Bool(self.enable)),
            Some(SqlValue::Bool(self.enable_default_site)),
            Some(SqlValue::Bool(self.enable_white_list)),
            Some(SqlValue::Bool(self.enable_block_list)),
        ]
    }

    proof fn lemma_update_by_name_columns_bind(&self)
        ensures
            columns_bind(self.update_by_name_columns(), self.update_by_name_fields()),
    {
        assert(self.update_by_name_columns().len() == self.update_by_name_fields().len());
    }

    /// The values bound to the `update_by_name` statement: the present SET values in
    /// column order, then `name`.
    pub fn update_by_name_values(&self, name: String) -> (r: Vec<SqlValue>)
        ensures
            columns_bind(self.update_by_name_columns(), self.update_by_name_fields()),
            r@ == present_values(self.update_by_name_fields()).push(SqlValue::Text(name)),
    {
        let fields = vec![
            text_of(&self.name),
            text_of(&self.security_key),
            text_of(&self.description),
            time_of(&self.gmt_create),
            time_of(&self.gmt_modified),
            Some(SqlValue::Bool(self.enable)),
            Some(SqlValue::Bool(self.enable_default_site)),
            Some(SqlValue::Bool(self.enable_white_list)),
            Some(SqlValue::Bool(self.enable_block_list)),
        ];
        assert(fields@ =~= self.update_by_name_fields());
        proof { self.lemma_update_by_name_columns_bind(); }
        let mut r = present_of(fields);
        r.push(SqlValue::Text(name));
        r
    }

}

impl TbConsole {
    /// The values of the insert statement, column by column (none where the column is left out).
    pub open spec fn insert_fields(&self) -> Seq<Option<SqlValue>> {
        seq![
            i64_value(self.id),
            text_value(self.host),
            i32_value(self.port),
            time_value(self.last_active_time),
            time_value(self.gmt_create),
            time_value(self.gmt_modified),
        ]
    }

    proof fn lemma_insert_columns_bind(&self)
        ensures
            columns_bind(self.insert_columns(), self.insert_fields()),
    {
        assert(self.insert_columns().len() == self.insert_fields().len());
    }

    /// The values bound to the insert statement: the present ones, in column order.
    pub fn insert_values(&self) -> (r: Vec<SqlValue>)
        ensures
            columns_bind(self.insert_columns(), self.insert_fields()),
            r@ == present_values(self.insert_fields()),
    {
        let fields = vec![
            i64_of(&self.id),
            text_of(&self.host),
            i32_of(&self.port),
            time_of(&self.last_active_time),
            time_of(&self.gmt_create),
            time_of(&self.gmt_modified),
        ];
        assert(fields@ =~= self.insert_fields());
        proof { self.lemma_insert_columns_bind(); }
        let r = present_of(fields);
        r
    }

    /// The values of the `update_by_id` statement's SET list, column by column (none where the column is left out).
    pub open spec fn update_by_id_fields(&self) -> Seq<Option<SqlValue>> {
        seq![
            text_value(self.host),
            i32_value(self.port),
            time_value(self.last_active_time),
            time_value(self.gmt_create),
            time_value(self.gmt_modified),
        ]
    }

    proof fn lemma_update_by_id_columns_bind(&self)
        ensures
            columns_bind(self.update_by_id_columns(), self.update_by_id_fields()),
    {
        assert(self.update_by_id_columns().len() == self.update_by_id_fields().len());
    }

    /// The values bound to the `update_by_id` statement: the present SET values in
    /// column order, then `id`.
    pub fn update_by_id_values(&self, id: i64) -> (r: Vec<SqlValue>)
        ensures
            columns_bind(self.update_by_id_columns(), self.update_by_id_fields()),
            r@ == present_values(self.update_by_id_fields()).push(SqlValue::I64(id)),
    {
        let fields = vec![
            text_of(&self.host),
            i32_of(&self.port),
            time_of(&self.last_active_time),
            time_of(&self.gmt_create),
            time_of(&self.gmt_modified),
        ];
        assert(fields@ =~= self.update_by_id_fields());
        proof { self.lemma_update_by_id_columns_bind(); }
        let mut r = present_of(fields);
        r.push(SqlValue::I64(id));
        r
    }

}

impl TbLocation {
    #[verifier::opaque]
    pub open spec fn insert_fields_head(&self) -> Seq<Option<SqlValue>> {
        seq![
            i64_value(self.id),
            i64_value(self.site_id),
            text_value(self.location),
            i8_value(self.proxy),
            text_value(self.protocol),
            text_value(self.sni),
            i64_value(self.client_max_body_size),
            i32_value(self.connection_timeout),
            i32_value(self.read_timeout),
            i32_value(self.write_timeout),
            i32_value(self.idle_timeout),
            text_value(self.rewrite),
        ]
    }

    #[verifier::opaque]
    pub open spec fn insert_fields_tail(&self) -> Seq<Option<SqlValue>> {
        seq![
            text_value(self.http_version),
            text_value(self.proxy_set_headers),
            text_value(self.proxy_add_headers),
            text_value(self.proxy_remove_headers),
            text_value(self.response_set_headers),
            text_value(self.response_add_headers),
            text_value(self.response_remove_headers),
            text_value(self.root_dir),
            i8_value(self.auto_index),
            time_value(self.gmt_create),
            time_value(self.gmt_modified),
        ]
    }

    /// The values of the insert statement, column by column (none where the column is left out).
    pub open spec fn insert_fields(&self) -> Seq<Option<SqlValue>> {
        self.insert_fields_head() + self.insert_fields_tail()
    }

    proof fn lemma_insert_columns_bind(&self)
        ensures
            columns_bind(self.insert_columns(), self.insert_fields()),
    {
        assert(columns_bind(self.insert_columns_head(), self.insert_fields_head())) by {
            reveal(TbLocation::insert_fields_head);
            reveal(TbLocation::insert_columns_head);
        }
        assert(columns_bind(self.insert_columns_tail(), self.insert_fields_tail())) by {
            reveal(TbLocation::insert_fields_tail);
            reveal(TbLocation::insert_columns_tail);
        }
        lemma_columns_bind_concat(self.insert_columns_head(), self.insert_fields_head(), self.insert_columns_tail(), self.insert_fields_tail());
    }

    /// The values bound to the insert statement: the present ones, in column order.
    #[verifier::spinoff_prover]
    pub fn insert_values(&self) -> (r: Vec<SqlValue>)
        ensures
            columns_bind(self.insert_columns(), self.insert_fields()),
            r@ == present_values(self.insert_fields()),
    {
        let mut first = vec![
            i64_of(&self.id),
            i64_of(&self.site_id),
            text_of(&self.location),
            i8_of(&self.proxy),
            text_of(&self.protocol),
            text_of(&self.sni),
            i64_of(&self.client_max_body_size),
            i32_of(&self.connection_timeout),
            i32_of(&self.read_timeout),
            i32_of(&self.write_timeout),
            i32_of(&self.idle_timeout),
            text_of(&self.rewrite),
        ];
        assert(first@ =~= self.insert_fields_head()) by {
            reveal(TbLocation::insert_fields_head);
        }
        let mut second = vec![
            text_of(&self.http_version),
            text_of(&self.proxy_set_headers),
            text_of(&self.proxy_add_headers),
            text_of(&self.proxy_remove_headers),
            text_of(&self.response_set_headers),
            text_of(&self.response_add_headers),
            text_of(&self.response_remove_headers),
            text_of(&self.root_dir),
            i8_of(&self.auto_index),
            time_of(&self.gmt_create),
            time_of(&self.gmt_modified),
        ];
        assert(second@ =~= self.insert_fields_tail()) by {
            reveal(TbLocation::insert_fields_tail);
        }
        proof { self.lemma_insert_columns_bind(); }
        first.append(&mut second);
        let fields = first;
        assert(fields@ =~= self.insert_fields());
        let r = present_of(fields);
        r
    }

    #[verifier::opaque]
    pub open spec fn update_by_id_fields_head(&self) -> Seq<Option<SqlValue>> {
        seq![
            i64_value(self.site_id),
            text_value(self.location),
            i8_value(self.proxy),
            text_value(self.protocol),
            text_value(self.sni),
            i64_value(self.client_max_body_size),
            i32_value(self.connection_timeout),
            i32_value(self.read_timeout),
            i32_value(self.write_timeout),
            i32_value(self.idle_timeout),
            text_value(self.rewrite),
            text_value(self.http_version),
        ]
    }

    #[verifier::opaque]
    pub open spec fn update_by_id_fields_tail(&self) -> Seq<Option<SqlValue>> {
        seq![
            text_value(self.proxy_set_headers),
            text_value(self.proxy_add_headers),
            text_value(self.proxy_remove_headers),
            text_value(self.response_set_headers),
            text_value(self.response_add_headers),
            text_value(self.response_remove_headers),
            text_value(self.root_dir),
            i8_value(self.auto_index),
            time_value(self.gmt_create),
            time_value(self.gmt_modified),
        ]
    }

    /// The values of the `update_by_id` statement's SET list, column by column (none where the column is left out).
    pub open spec fn update_by_id_fields(&self) -> Seq<Option<SqlValue>> {
        self.update_by_id_fields_head() + self.update_by_id_fields_tail()
    }

    proof fn lemma_update_by_id_columns_bind(&self)
        ensures
            columns_bind(self.update_by_id_columns(), self.update_by_id_fields()),
    {
        assert(columns_bind(self.update_by_id_columns_head(), self.update_by_id_fields_head())) by {
            reveal(TbLocation::update_by_id_fields_head);
            reveal(TbLocation::update_by_id_columns_head);
        }
        assert(columns_bind(self.update_by_id_columns_tail(), self.update_by_id_fields_tail())) by {
            reveal(TbLocation::update_by_id_fields_tail);
            reveal(TbLocation::update_by_id_columns_tail);
        }
        lemma_columns_bind_concat(self.update_by_id_columns_head(), self.update_by_id_fields_head(), self.update_by_id_columns_tail(), self.update_by_id_fields_tail());
    }

    /// The values bound to the `update_by_id` statement: the present SET values in
    /// column order, then `id`.
    #[verifier::spinoff_prover]
    pub fn update_by_id_values(&self, id: i64) -> (r: Vec<SqlValue>)
        ensures
            columns_bind(self.update_by_id_columns(), self.update_by_id_fields()),
            r@ == present_values(self.update_by_id_fields()).push(SqlValue::I64(id)),
    {
        let mut first = vec![
            i64_of(&self.site_id),
            text_of(&self.location),
            i8_of(&self.proxy),
            text_of(&self.protocol),
            text_of(&self.sni),
            i64_of(&self.client_max_body_size),
            i32_of(&self.connection_timeout),
            i32_of(&self.read_timeout),
            i32_of(&self.write_timeout),
            i32_of(&self.idle_timeout),
            text_of(&self.rewrite),
            text_of(&self.http_version),
        ];
        assert(first@ =~= self.update_by_id_fields_head()) by {
            reveal(TbLocation::update_by_id_fields_head);
        }
        let mut second = vec![
            text_of(&self.proxy_set_headers),
            text_of(&self.proxy_add_headers),
            text_of(&self.proxy_remove_headers),
            text_of(&self.response_set_headers),
            text_of(&self.response_add_headers),
            text_of(&self.response_remove_headers),
            text_of(&self.root_dir),
            i8_of(&self.auto_index),
            time_of(&self.gmt_create),
            time_of(&self.gmt_modified),
        ];
        assert(second@ =~= self.update_by_id_fields_tail()) by {
            reveal(TbLocation::update_by_id_fields_tail);
        }
        proof { self.lemma_update_by_id_columns_bind(); }
        first.append(&mut second);
        let fields = first;
        assert(fields@ =~= self.update_by_id_fields());
        let mut r = present_of(fields);
        r.push(SqlValue::I64(id));
        r
    }

}

impl TbSession {
    /// The values of the insert statement, column by column (none where the column is left out).
    pub open spec fn insert_fields(&self) -> Seq<Option<SqlValue>> {
        seq![
            i64_value(self.id),
            text_value(self.user),
            text_value(self.email),
            text_value(self.login_ip),
            text_value(self.token),
            time_value(self.gmt_create),
            time_value(self.gmt_modified),
        ]
    }

    proof fn lemma_insert_columns_bind(&self)
        ensures
            columns_bind(self.insert_columns(), self.insert_fields()),
    {
        assert(self.insert_columns().len() == self.insert_fields().len());
    }

    /// The values bound to the insert statement: the present ones, in column order.
    pub fn insert_values(&self) -> (r: Vec<SqlValue>)
        ensures
            columns_bind(self.insert_columns(), self.insert_fields()),
            r@ == present_values(self.insert_fields()),
    {
        let fields = vec![
            i64_of(&self.id),
            text_of(&self.user),
            text_of(&self.email),
            text_of(&self.login_ip),
            text_of(&self.token),
            time_of(&self.gmt_create),
            time_of(&self.gmt_modified),
        ];
        assert(fields@ =~= self.insert_fields());
        proof { self.lemma_insert_columns_bind(); }
        let r = present_of(fields);
        r
    }

    /// The values of the `update_by_token` statement's SET list, column by column (none where the column is left out).
    pub open spec fn update_by_token_fields(&self) -> Seq<Option<SqlValue>> {
        seq![
            text_value(self.user),
            text_value(self.email),
            text_value(self.login_ip),
            text_value(self.token),
            time_value(self.gmt_create),
            time_value(self.gmt_modified),
        ]
    }

    proof fn lemma_update_by_token_columns_bind(&self)
        ensures
            columns_bind(self.update_by_token_columns(), self.update_by_token_fields()),
    {
        assert(self.update_by_token_columns().len() == self.update_by_token_fields().len());
    }

    /// The values bound to the `update_by_token` statement: the present SET values in
    /// column order, then `token`.
    pub fn update_by_token_values(&self, token: String) -> (r: Vec<SqlValue>)
        ensures
            columns_bind(self.update_by_token_columns(), self.update_by_token_fields()),
            r@ == present_values(self.update_by_token_fields()).push(SqlValue::Text(token)),
    {
        let fields = vec![
            text_of(&self.user),
            text_of(&self.email),
            text_of(&self.login_ip),
            text_of(&self.token),
            time_of(&self.gmt_create),
            time_of(&self.gmt_modified),
        ];
        assert(fields@ =~= self.update_by_token_fields());
        proof { self.lemma_update_by_token_columns_bind(); }
        let mut r = present_of(fields);
        r.push(SqlValue::Text(token));
        r
    }

}

impl TbSite {
    /// The values of the insert statement, column by column (none where the column is left out).
    pub open spec fn insert_fields(&self) -> Seq<Option<SqlValue>> {
        seq![
            i64_value(self.id),
            text_value(self.cluster_name),
            text_value(self.name),
            text_value(self.alt_names),
            text_value(self.root_dir),
            text_value(self.tls_cert),
            time_value(self.tls_cert_start_date),
            time_value(self.tls_cert_end_date),
            text_value(self.tls_private_key),
            i64_value(self.rate_limit),
            i64_value(self.rate_limit_unit),
            time_value(self.gmt_create),
            time_value(self.gmt_modified),
            Some(SqlValue::Bool(self.auto_index)),
            Some(SqlValue::Bool(self.tls_on)),
            Some(SqlValue::Bool(self.tls_enforce)),
            Some(SqlValue::Bool(self.acme_on)),
        ]
    }

    #[verifier::rlimit(80)]
    proof fn lemma_insert_columns_bind(&self)
        ensures
            columns_bind(self.insert_columns(), self.insert_fields()),
    {
        assert(self.insert_columns().len() == self.insert_fields().len());
    }

    /// The values bound to the insert statement: the present ones, in column order.
    #[verifier::spinoff_prover]
    pub fn insert_values(&self) -> (r: Vec<SqlValue>)
        ensures
            columns_bind(self.insert_columns(), self.insert_fields()),
            r@ == present_values(self.insert_fields()),
    {
        let fields = vec![
            i64_of(&self.id),
            text_of(&self.cluster_name),
            text_of(&self.name),
            text_of(&self.alt_names),
            text_of(&self.root_dir),
            text_of(&self.tls_cert),
            time_of(&self.tls_cert_start_date),
            time_of(&self.tls_cert_end_date),
            text_of(&self.tls_private_key),
            i64_of(&self.rate_limit),
            i64_of(&self.rate_limit_unit),
            time_of(&self.gmt_create),
            time_of(&self.gmt_modified),
            Some(SqlValue::Bool(self.auto_index)),
            Some(SqlValue::Bool(self.tls_on)),
            Some(SqlValue::Bool(self.tls_enforce)),
            Some(SqlValue::Bool(self.acme_on)),
        ];
        assert(fields@ =~= self.insert_fields());
        proof { self.lemma_insert_columns_bind(); }
        let r = present_of(fields);
        r
    }

    /// The values of the `update_by_name` statement's SET list, column by column (none where the column is left out).
    pub open spec fn update_by_name_fields(&self) -> Seq<Option<SqlValue>> {
        seq![
            text_value(self.cluster_name),
            text_value(self.name),
            text_value(self.alt_names),
            text_value(self.root_dir),
            text_value(self.tls_cert),
            time_value(self.tls_cert_start_date),
            time_value(self.tls_cert_end_date),
            text_value(self.tls_private_key),
            i64_value(self.rate_limit),
            i64_value(self.rate_limit_unit),
            time_value(self.gmt_create),
            time_value(self.gmt_modified),
            Some(SqlValue::Bool(self.auto_index)),
            Some(SqlValue::Bool(self.tls_on)),
            Some(SqlValue::Bool(self.tls_enforce)),
            Some(SqlValue::Bool(self.acme_on)),
        ]
    }

    #[verifier::rlimit(80)]
    proof fn lemma_update_by_name_columns_bind(&self)
        ensures
            columns_bind(self.update_by_name_columns(), self.update_by_name_fields()),
    {
        assert(self.update_by_name_columns().len() == self.update_by_name_fields().len());
    }

    /// The values bound to the `update_by_name` statement: the present SET values in
    /// column order, then `name`.
    #[verifier::spinoff_prover]
    pub fn update_by_name_values(&self, name: String) -> (r: Vec<SqlValue>)
        ensures
            columns_bind(self.update_by_name_columns(), self.update_by_name_fields()),
            r@ == present_values(self.update_by_name_fields()).push(SqlValue::Text(name)),
    {
        let fields = vec![
            text_of(&self.cluster_name),
            text_of(&self.name),
            text_of(&self.alt_names),
            text_of(&self.root_dir),
            text_of(&self.tls_cert),
            time_of(&self.tls_cert_start_date),
            time_of(&self.tls_cert_end_date),
            text_of(&self.tls_private_key),
            i64_of(&self.rate_limit),
            i64_of(&self.rate_limit_unit),
            time_of(&self.gmt_create),
            time_of(&self.gmt_modified),
            Some(SqlValue::Bool(self.auto_index)),
            Some(SqlValue::Bool(self.tls_on)),
            Some(SqlValue::Bool(self.tls_enforce)),
            Some(SqlValue::Bool(self.acme_on)),
        ];
        assert(fields@ =~= self.update_by_name_fields());
        proof { self.lemma_update_by_name_columns_bind(); }
        let mut r = present_of(fields);
        r.push(SqlValue::Text(name));
        r
    }

}

impl TbTask {
    /// The values of the insert statement, column by column (none where the column is left out).
    pub open spec fn insert_fields(&self) -> Seq<Option<SqlValue>> {
        seq![
            i64_value(self.id),
            text_value(self.name),
            i32_value(self.task_type),
            time_value(self.last_time),
            time_value(self.gmt_create),
            time_value(self.gmt_modified),
        ]
    }

    proof fn lemma_insert_columns_bind(&self)
        ensures
            columns_bind(self.insert_columns(), self.insert_fields()),
    {
        assert(self.insert_columns().len() == self.insert_fields().len());
    }

    /// The values bound to the insert statement: the present ones, in column order.
    pub fn insert_values(&self) -> (r: Vec<SqlValue>)
        ensures
            columns_bind(self.insert_columns(), self.insert_fields()),
            r@ == present_values(self.insert_fields()),
    {
        let fields = vec![
            i64_of(&self.id),
            text_of(&self.name),
            i32_of(&self.task_type),
            time_of(&self.last_time),
            time_of(&self.gmt_create),
            time_of(&self.gmt_modified),
        ];
        assert(fields@ =~= self.insert_fields());
        proof { self.lemma_insert_columns_bind(); }
        let r = present_of(fields);
        r
    }

    /// The values of the `update_by_name_and_type` statement's SET list, column by column (none where the column is left out).
    pub open spec fn update_by_name_and_type_fields(&self) -> Seq<Option<SqlValue>> {
        seq![
            text_value(self.name),
            i32_value(self.task_type),
            time_value(self.last_time),
            time_value(self.gmt_create),
            time_value(self.gmt_modified),
        ]
    }

    proof fn lemma_update_by_name_and_type_columns_bind(&self)
        ensures
            columns_bind(self.update_by_name_and_type_columns(), self.update_by_name_and_type_fields()),
    {
        assert(self.update_by_name_and_type_columns().len() == self.update_by_name_and_type_fields().len());
    }

    /// The values bound to the `update_by_name_and_type` statement: the present SET values in
    /// column order, then `name` and `task_type`.
    pub fn update_by_name_and_type_values(&self, name: String, task_type: i32) -> (r: Vec<SqlValue>)
        ensures
            columns_bind(self.update_by_name_and_type_columns(), self.update_by_name_and_type_fields()),
            r@ == present_values(self.update_by_name_and_type_fields()).push(SqlValue::Text(name)).push(SqlValue::I32(task_type)),
    {
        let fields = vec![
            text_of(&self.name),
            i32_of(&self.task_type),
            time_of(&self.last_time),
            time_of(&self.gmt_create),
            time_of(&self.gmt_modified),
        ];
        assert(fields@ =~= self.update_by_name_and_type_fields());
        proof { self.lemma_update_by_name_and_type_columns_bind(); }
        let mut r = present_of(fields);
        r.push(SqlValue::Text(name));
        r.push(SqlValue::I32(task_type));
        r
    }

}

impl TbUser {
    /// The values of the insert statement, column by column (none where the column is left out).
    pub open spec fn insert_fields(&self) -> Seq<Option<SqlValue>> {
        seq![
            i64_value(self.id),
            text_value(self.name),
            text_value(self.email),
            text_value(self.password),
            text_value(self.real_name),
            text_value(self.ext_info),
            time_value(self.gmt_create),
            time_value(self.gmt_modified),
        ]
    }

    proof fn lemma_insert_columns_bind(&self)
        ensures
            columns_bind(self.insert_columns(), self.insert_fields()),
    {
        assert(self.insert_columns().len() == self.insert_fields().len());
    }

    /// The values bound to the insert statement: the present ones, in column order.
    pub fn insert_values(&self) -> (r: Vec<SqlValue>)
        ensures
            columns_bind(self.insert_columns(), self.insert_fields()),
            r@ == present_values(self.insert_fields()),
    {
        let fields = vec![
            i64_of(&self.id),
            text_of(&self.name),
            text_of(&self.email),
            text_of(&self.password),
            text_of(&self.real_name),
            text_of(&self.ext_info),
            time_of(&self.gmt_create),
            time_of(&self.gmt_modified),
        ];
        assert(fields@ =~= self.insert_fields());
        proof { self.lemma_insert_columns_bind(); }
        let r = present_of(fields);
        r
    }

    /// The values of the `update_by_name` statement's SET list, column by column (none where the column is left out).
    pub open spec fn update_by_name_fields(&self) -> Seq<Option<SqlValue>> {
        seq![
            text_value(self.name),
            text_value(self.email),
            text_value(self.password),
            text_value(self.real_name),
            text_value(self.ext_info),
            time_value(self.gmt_create),
            time_value(self.gmt_modified),
        ]
    }

    proof fn lemma_update_by_name_columns_bind(&self)
        ensures
            columns_bind(self.update_by_name_columns(), self.update_by_name_fields()),
    {
        assert(self.update_by_name_columns().len() == self.update_by_name_fields().len());
    }

    /// The values bound to the `update_by_name` statement: the present SET values in
    /// column order, then `name`.
    pub fn update_by_name_values(&self, name: String) -> (r: Vec<SqlValue>)
        ensures
            columns_bind(self.update_by_name_columns(), self.update_by_name_fields()),
            r@ == present_values(self.update_by_name_fields()).push(SqlValue::Text(name)),
    {
        let fields = vec![
            text_of(&self.name),
            text_of(&self.email),
            text_of(&self.password),
            text_of(&self.real_name),
            text_of(&self.ext_info),
            time_of(&self.gmt_create),
            time_of(&self.gmt_modified),
        ];
        assert(fields@ =~= self.update_by_name_fields());
        proof { self.lemma_update_by_name_columns_bind(); }
        let mut r = present_of(fields);
        r.push(SqlValue::Text(name));
        r
    }

    /// The values of the `update_by_email` statement's SET list, column by column (none where the column is left out).
    pub open spec fn update_by_email_fields(&self) -> Seq<Option<SqlValue>> {
        seq![
            text_value(self.name),
            text_value(self.email),
            text_value(self.password),
            text_value(self.real_name),
            text_value(self.ext_info),
            time_value(self.gmt_create),
            time_value(self.gmt_modified),
        ]
    }

    proof fn lemma_update_by_email_columns_bind(&self)
        ensures
            columns_bind(self.update_by_email_columns(), self.update_by_email_fields()),
    {
        assert(self.update_by_email_columns().len() == self.update_by_email_fields().len());
    }

    /// The values bound to the `update_by_email` statement: the present SET values in
    /// column order, then `email`.
    pub fn update_by_email_values(&self, email: String) -> (r: Vec<SqlValue>)
        ensures
            columns_bind(self.update_by_email_columns(), self.update_by_email_fields()),
            r@ == present_values(self.update_by_email_fields()).push(SqlValue::Text(email)),
    {
        let fields = vec![
            text_of(&self.name),
            text_of(&self.email),
            text_of(&self.password),
            text_of(&self.real_name),
            text_of(&self.ext_info),
            time_of(&self.gmt_create),
            time_of(&self.gmt_modified),
        ];
        assert(fields@ =~= self.update_by_email_fields());
        proof { self.lemma_update_by_email_columns_bind(); }
        let mut r = present_of(fields);
        r.push(SqlValue::Text(email));
        r
    }

}

// ---------------------------------------------------------------------
// Every present value is written
// ---------------------------------------------------------------------

/// A column whose value is present is named by the statement.
pub proof fn lemma_named_when_present(cols: Seq<(&str, bool)>, i: int)
    requires
        0 <= i < cols.len(),
    ensures
        cols[i].1 ==> present_names(cols).contains(cols[i].0@),
    decreases cols.len(),
{
    let names = present_names(cols);
    if i < cols.len() - 1 {
        let c = cols.drop_last();
        assert(c[i] == cols[i]);
        lemma_named_when_present(c, i);
        if cols[i].1 {
            let prev = present_names(c);
            let k = choose|k: int| 0 <= k < prev.len() && prev[k] == cols[i].0@;
            if cols.last().1 {
                assert(names[k] == prev[k]);
            } else {
                assert(names == prev);
            }
        }
    } else if cols[i].1 {
        assert(cols.last() == cols[i]);
        assert(names[names.len() - 1] == cols[i].0@);
    }
}

/// A present value is bound.
pub proof fn lemma_bound_when_present(fields: Seq<Option<SqlValue>>, i: int)
    requires
        0 <= i < fields.len(),
    ensures
        fields[i] is Some ==> present_values(fields).contains(fields[i]->0),
    decreases fields.len(),
{
    let vals = present_values(fields);
    if i < fields.len() - 1 {
        let f = fields.drop_last();
        assert(f[i] == fields[i]);
        lemma_bound_when_present(f, i);
        if fields[i] is Some {
            let prev = present_values(f);
            let k = choose|k: int| 0 <= k < prev.len() && prev[k] == fields[i]->0;
            if fields.last() is Some {
                assert(vals[k] == prev[k]);
            } else {
                assert(vals == prev);
            }
        }
    } else if fields[i] is Some {
        assert(fields.last() == fields[i]);
        assert(vals[vals.len() - 1] == fields[i]->0);
    }
}

impl TbClusterIpCidr {
    /// Storing the row names every column whose value is present, and binds that value.
    pub proof fn lemma_insert_writes_present_columns(self)
        ensures
            self.id is Some ==> present_names(self.insert_columns()).contains("id"@) && present_values(self.insert_fields()).contains(SqlValue::I64(self.id->0)),
            self.cluster_name is Some ==> present_names(self.insert_columns()).contains("cluster_name"@) && present_values(self.insert_fields()).contains(SqlValue::Text(self.cluster_name->0)),
            self.ip is Some ==> present_names(self.insert_columns()).contains("ip"@) && present_values(self.insert_fields()).contains(SqlValue::Text(self.ip->0)),
            self.prefix_len is Some ==> present_names(self.insert_columns()).contains("prefix_len"@) && present_values(self.insert_fields()).contains(SqlValue::I32(self.prefix_len->0)),
            self.ip_type is Some ==> present_names(self.insert_columns()).contains("`type`"@) && present_values(self.insert_fields()).contains(SqlValue::I8(self.ip_type->0)),
            self.start_time is Some ==> present_names(self.insert_columns()).contains("start_time"@) && present_values(self.insert_fields()).contains(SqlValue::Time(self.start_time->0)),
            self.end_time is Some ==> present_names(self.insert_columns()).contains("end_time"@) && present_values(self.insert_fields()).contains(SqlValue::Time(self.end_time->0)),
            self.gmt_create is Some ==> present_names(self.insert_columns()).contains("gmt_create"@) && present_values(self.insert_fields()).contains(SqlValue::Time(self.gmt_create->0)),
            self.gmt_modified is Some ==> present_names(self.insert_columns()).contains("gmt_modified"@) && present_values(self.insert_fields()).contains(SqlValue::Time(self.gmt_modified->0)),
    {
        assert(self.id is Some ==> present_names(self.insert_columns()).contains("id"@) && present_values(self.insert_fields()).contains(SqlValue::I64(self.id->0))) by {
            lemma_named_when_present(self.insert_columns(), 0);
            lemma_bound_when_present(self.insert_fields(), 0);
        }
        assert(self.cluster_name is Some ==> present_names(self.insert_columns()).contains("cluster_name"@) && present_values(self.insert_fields()).contains(SqlValue::Text(self.cluster_name->0))) by {
            lemma_named_when_present(self.insert_columns(), 1);
            lemma_bound_when_present(self.insert_fields(), 1);
        }
        assert(self.ip is Some ==> present_names(self.insert_columns()).contains("ip"@) && present_values(self.insert_fields()).contains(SqlValue::Text(self.ip->0))) by {
            lemma_named_when_present(self.insert_columns(), 2);
            lemma_bound_when_present(self.insert_fields(), 2);
        }
        assert(self.prefix_len is Some ==> present_names(self.insert_columns()).contains("prefix_len"@) && present_values(self.insert_fields()).contains(SqlValue::I32(self.prefix_len->0))) by {
            lemma_named_when_present(self.insert_columns(), 3);
            lemma_bound_when_present(self.insert_fields(), 3);
        }
        assert(self.ip_type is Some ==> present_names(self.insert_columns()).contains("`type`"@) && present_values(self.insert_fields()).contains(SqlValue::I8(self.ip_type->0))) by {
            lemma_named_when_present(self.insert_columns(), 4);
            lemma_bound_when_present(self.insert_fields(), 4);
        }
        assert(self.start_time is Some ==> present_names(self.insert_columns()).contains("start_time"@) && present_values(self.insert_fields()).contains(SqlValue::Time(self.start_time->0))) by {
            lemma_named_when_present(self.insert_columns(), 5);
            lemma_bound_when_present(self.insert_fields(), 5);
        }
        assert(self.end_time is Some ==> present_names(self.insert_columns()).contains("end_time"@) && present_values(self.insert_fields()).contains(SqlValue::Time(self.end_time->0))) by {
            lemma_named_when_present(self.insert_columns(), 6);
            lemma_bound_when_present(self.insert_fields(), 6);
        }
        assert(self.gmt_create is Some ==> present_names(self.insert_columns()).contains("gmt_create"@) && present_values(self.insert_fields()).contains(SqlValue::Time(self.gmt_create->0))) by {
            lemma_named_when_present(self.insert_columns(), 7);
            lemma_bound_when_present(self.insert_fields(), 7);
        }
        assert(self.gmt_modified is Some ==> present_names(self.insert_columns()).contains("gmt_modified"@) && present_values(self.insert_fields()).contains(SqlValue::Time(self.gmt_modified->0))) by {
            lemma_named_when_present(self.insert_columns(), 8);
            lemma_bound_when_present(self.insert_fields(), 8);
        }
    }

    /// The `update_by_id` statement names every column whose value is present, and binds that value.
    pub proof fn lemma_update_by_id_writes_present_columns(self)
        ensures
            self.cluster_name is Some ==> present_names(self.update_by_id_columns()).contains("cluster_name"@) && present_values(self.update_by_id_fields()).contains(SqlValue::Text(self.cluster_name->0)),
            self.ip is Some ==> present_names(self.update_by_id_columns()).contains("ip"@) && present_values(self.update_by_id_fields()).contains(SqlValue::Text(self.ip->0)),
            self.prefix_len is Some ==> present_names(self.update_by_id_columns()).contains("prefix_len"@) && present_values(self.update_by_id_fields()).contains(SqlValue::I32(self.prefix_len->0)),
            self.ip_type is Some ==> present_names(self.update_by_id_columns()).contains("`type`"@) && present_values(self.update_by_id_fields()).contains(SqlValue::I8(self.ip_type->0)),
            self.start_time is Some ==> present_names(self.update_by_id_columns()).contains("start_time"@) && present_values(self.update_by_id_fields()).contains(SqlValue::Time(self.start_time->0)),
            self.end_time is Some ==> present_names(self.update_by_id_columns()).contains("end_time"@) && present_values(self.update_by_id_fields()).contains(SqlValue::Time(self.end_time->0)),
            self.gmt_create is Some ==> present_names(self.update_by_id_columns()).contains("gmt_create"@) && present_values(self.update_by_id_fields()).contains(SqlValue::Time(self.gmt_create->0)),
            self.gmt_modified is Some ==> present_names(self.update_by_id_columns()).contains("gmt_modified"@) && present_values(self.update_by_id_fields()).contains(SqlValue::Time(self.gmt_modified->0)),
    {
        assert(self.cluster_name is Some ==> present_names(self.update_by_id_columns()).contains("cluster_name"@) && present_values(self.update_by_id_fields()).contains(SqlValue::Text(self.cluster_name->0))) by {
            lemma_named_when_present(self.update_by_id_columns(), 0);
            lemma_bound_when_present(self.update_by_id_fields(), 0);
        }
        assert(self.ip is Some ==> present_names(self.update_by_id_columns()).contains("ip"@) && present_values(self.update_by_id_fields()).contains(SqlValue::Text(self.ip->0))) by {
            lemma_named_when_present(self.update_by_id_columns(), 1);
            lemma_bound_when_present(self.update_by_id_fields(), 1);
        }
        assert(self.prefix_len is Some ==> present_names(self.update_by_id_columns()).contains("prefix_len"@) && present_values(self.update_by_id_fields()).contains(SqlValue::I32(self.prefix_len->0))) by {
            lemma_named_when_present(self.update_by_id_columns(), 2);
            lemma_bound_when_present(self.update_by_id_fields(), 2);
        }
        assert(self.ip_type is Some ==> present_names(self.update_by_id_columns()).contains("`type`"@) && present_values(self.update_by_id_fields()).contains(SqlValue::I8(self.ip_type->0))) by {
            lemma_named_when_present(self.update_by_id_columns(), 3);
            lemma_bound_when_present(self.update_by_id_fields(), 3);
        }
        assert(self.start_time is Some ==> present_names(self.update_by_id_columns()).contains("start_time"@) && present_values(self.update_by_id_fields()).contains(SqlValue::Time(self.start_time->0))) by {
            lemma_named_when_present(self.update_by_id_columns(), 4);
            lemma_bound_when_present(self.update_by_id_fields(), 4);
        }
        assert(self.end_time is Some ==> present_names(self.update_by_id_columns()).contains("end_time"@) && present_values(self.update_by_id_fields()).contains(SqlValue::Time(self.end_time->0))) by {
            lemma_named_when_present(self.update_by_id_columns(), 5);
            lemma_bound_when_present(self.update_by_id_fields(), 5);
        }
        assert(self.gmt_create is Some ==> present_names(self.update_by_id_columns()).contains("gmt_create"@) && present_values(self.update_by_id_fields()).contains(SqlValue::Time(self.gmt_create->0))) by {
            lemma_named_when_present(self.update_by_id_columns(), 6);
            lemma_bound_when_present(self.update_by_id_fields(), 6);
        }
        assert(self.gmt_modified is Some ==> present_names(self.update_by_id_columns()).contains("gmt_modified"@) && present_values(self.update_by_id_fields()).contains(SqlValue::Time(self.gmt_modified->0))) by {
            lemma_named_when_present(self.update_by_id_columns(), 7);
            lemma_bound_when_present(self.update_by_id_fields(), 7);
        }
    }

}

impl TbAigw {
    /// Storing the row names every column whose value is present, and binds that value.
    pub proof fn lemma_insert_writes_present_columns(self)
        ensures
            self.id is Some ==> present_names(self.insert_columns()).contains("id"@) && present_values(self.insert_fields()).contains(SqlValue::I64(self.id->0)),
            self.cluster_name is Some ==> present_names(self.insert_columns()).contains("cluster_name"@) && present_values(self.insert_fields()).contains(SqlValue::Text(self.cluster_name->0)),
            self.ip is Some ==> present_names(self.insert_columns()).contains("ip"@) && present_values(self.insert_fields()).contains(SqlValue::Text(self.ip->0)),
            self.version is Some ==> present_names(self.insert_columns()).contains("version"@) && present_values(self.insert_fields()).contains(SqlValue::Text(self.version->0)),
            self.os_name is Some ==> present_names(self.insert_columns()).contains("os_name"@) && present_values(self.insert_fields()).contains(SqlValue::Text(self.os_name->0)),
            self.os_version is Some ==> present_names(self.insert_columns()).contains("os_version"@) && present_values(self.insert_fields()).contains(SqlValue::Text(self.os_version->0)),
            self.os_arch is Some ==> present_names(self.insert_columns()).contains("os_arch"@) && present_values(self.insert_fields()).contains(SqlValue::Text(self.os_arch->0)),
            self.cpu_name is Some ==> present_names(self.insert_columns()).contains("cpu_name"@) && present_values(self.insert_fields()).contains(SqlValue::Text(self.cpu_name->0)),
            self.cpu_vendor is Some ==> present_names(self.insert_columns()).contains("cpu_vendor"@) && present_values(self.insert_fields()).contains(SqlValue::Text(self.cpu_vendor->0)),
            self.cpu_frequency is Some ==> present_names(self.insert_columns()).contains("cpu_frequency"@) && present_values(self.insert_fields()).contains(SqlValue::I64(self.cpu_frequency->0)),
            self.cpu_nums is Some ==> present_names(self.insert_columns()).contains("cpu_nums"@) && present_values(self.insert_fields()).contains(SqlValue::I32(self.cpu_nums->0)),
            self.gmt_create is Some ==> present_names(self.insert_columns()).contains("gmt_create"@) && present_values(self.insert_fields()).contains(SqlValue::Time(self.gmt_create->0)),
            self.gmt_modified is Some ==> present_names(self.insert_columns()).contains("gmt_modified"@) && present_values(self.insert_fields()).contains(SqlValue::Time(self.gmt_modified->0)),
    {
        self.lemma_insert_writes_id();
        self.lemma_insert_writes_cluster_name();
        self.lemma_insert_writes_ip();
        self.lemma_insert_writes_version();
        self.lemma_insert_writes_os_name();
        self.lemma_insert_writes_os_version();
        self.lemma_insert_writes_os_arch();
        self.lemma_insert_writes_cpu_name();
        self.lemma_insert_writes_cpu_vendor();
        self.lemma_insert_writes_cpu_frequency();
        self.lemma_insert_writes_cpu_nums();
        self.lemma_insert_writes_gmt_create();
        self.lemma_insert_writes_gmt_modified();
    }

    proof fn lemma_insert_writes_id(self)
        ensures
            self.id is Some ==> present_names(self.insert_columns()).contains("id"@) && present_values(self.insert_fields()).contains(SqlValue::I64(self.id->0)),
    {
        lemma_named_when_present(self.insert_columns(), 0);
        lemma_bound_when_present(self.insert_fields(), 0);
    }

    proof fn lemma_insert_writes_cluster_name(self)
        ensures
            self.cluster_name is Some ==> present_names(self.insert_columns()).contains("cluster_name"@) && present_values(self.insert_fields()).contains(SqlValue::Text(self.cluster_name->0)),
    {
        lemma_named_when_present(self.insert_columns(), 1);
        lemma_bound_when_present(self.insert_fields(), 1);
    }

    proof fn lemma_insert_writes_ip(self)
        ensures
            self.ip is Some ==> present_names(self.insert_columns()).contains("ip"@) && present_values(self.insert_fields()).contains(SqlValue::Text(self.ip->0)),
    {
        lemma_named_when_present(self.insert_columns(), 2);
        lemma_bound_when_present(self.insert_fields(), 2);
    }

    proof fn lemma_insert_writes_version(self)
        ensures
            self.version is Some ==> present_names(self.insert_columns()).contains("version"@) && present_values(self.insert_fields()).contains(SqlValue::Text(self.version->0)),
    {
        lemma_named_when_present(self.insert_columns(), 3);
        lemma_bound_when_present(self.insert_fields(), 3);
    }

    proof fn lemma_insert_writes_os_name(self)
        ensures
            self.os_name is Some ==> present_names(self.insert_columns()).contains("os_name"@) && present_values(self.insert_fields()).contains(SqlValue::Text(self.os_name->0)),
    {
        lemma_named_when_present(self.insert_columns(), 4);
        lemma_bound_when_present(self.insert_fields(), 4);
    }

    proof fn lemma_insert_writes_os_version(self)
        ensures
            self.os_version is Some ==> present_names(self.insert_columns()).contains("os_version"@) && present_values(self.insert_fields()).contains(SqlValue::Text(self.os_version->0)),
    {
        lemma_named_when_present(self.insert_columns(), 5);
        lemma_bound_when_present(self.insert_fields(), 5);
    }

    proof fn lemma_insert_writes_os_arch(self)
        ensures
            self.os_arch is Some ==> present_names(self.insert_columns()).contains("os_arch"@) && present_values(self.insert_fields()).contains(SqlValue::Text(self.os_arch->0)),
    {
        lemma_named_when_present(self.insert_columns(), 6);
        lemma_bound_when_present(self.insert_fields(), 6);
    }

    proof fn lemma_insert_writes_cpu_name(self)
        ensures
            self.cpu_name is Some ==> present_names(self.insert_columns()).contains("cpu_name"@) && present_values(self.insert_fields()).contains(SqlValue::Text(self.cpu_name->0)),
    {
        lemma_named_when_present(self.insert_columns(), 7);
        lemma_bound_when_present(self.insert_fields(), 7);
    }

    proof fn lemma_insert_writes_cpu_vendor(self)
        ensures
            self.cpu_vendor is Some ==> present_names(self.insert_columns()).contains("cpu_vendor"@) && present_values(self.insert_fields()).contains(SqlValue::Text(self.cpu_vendor->0)),
    {
        lemma_named_when_present(self.insert_columns(), 8);
        lemma_bound_when_present(self.insert_fields(), 8);
    }

    proof fn lemma_insert_writes_cpu_frequency(self)
        ensures
            self.cpu_frequency is Some ==> present_names(self.insert_columns()).contains("cpu_frequency"@) && present_values(self.insert_fields()).contains(SqlValue::I64(self.cpu_frequency->0)),
    {
        lemma_named_when_present(self.insert_columns(), 9);
        lemma_bound_when_present(self.insert_fields(), 9);
    }

    proof fn lemma_insert_writes_cpu_nums(self)
        ensures
            self.cpu_nums is Some ==> present_names(self.insert_columns()).contains("cpu_nums"@) && present_values(self.insert_fields()).contains(SqlValue::I32(self.cpu_nums->0)),
    {
        lemma_named_when_present(self.insert_columns(), 10);
        lemma_bound_when_present(self.insert_fields(), 10);
    }

    proof fn lemma_insert_writes_gmt_create(self)
        ensures
            self.gmt_create is Some ==> present_names(self.insert_columns()).contains("gmt_create"@) && present_values(self.insert_fields()).contains(SqlValue::Time(self.gmt_create->0)),
    {
        lemma_named_when_present(self.insert_columns(), 11);
        lemma_bound_when_present(self.insert_fields(), 11);
    }

    proof fn lemma_insert_writes_gmt_modified(self)
        ensures
            self.gmt_modified is Some ==> present_names(self.insert_columns()).contains("gmt_modified"@) && present_values(self.insert_fields()).contains(SqlValue::Time(self.gmt_modified->0)),
    {
        lemma_named_when_present(self.insert_columns(), 12);
        lemma_bound_when_present(self.insert_fields(), 12);
    }

    /// The `update_by_id` statement names every column whose value is present, and binds that value.
    pub proof fn lemma_update_by_id_writes_present_columns(self)
        ensures
            self.cluster_name is Some ==> present_names(self.update_by_id_columns()).contains("cluster_name"@) && present_values(self.update_by_id_fields()).contains(SqlValue::Text(self.cluster_name->0)),
            self.ip is Some ==> present_names(self.update_by_id_columns()).contains("ip"@) && present_values(self.update_by_id_fields()).contains(SqlValue::Text(self.ip->0)),
            self.version is Some ==> present_names(self.update_by_id_columns()).contains("version"@) && present_values(self.update_by_id_fields()).contains(SqlValue::Text(self.version->0)),
            self.os_name is Some ==> present_names(self.update_by_id_columns()).contains("os_name"@) && present_values(self.update_by_id_fields()).contains(SqlValue::Text(self.os_name->0)),
            self.os_version is Some ==> present_names(self.update_by_id_columns()).contains("os_version"@) && present_values(self.update_by_id_fields()).contains(SqlValue::Text(self.os_version->0)),
            self.os_arch is Some ==> present_names(self.update_by_id_columns()).contains("os_arch"@) && present_values(self.update_by_id_fields()).contains(SqlValue::Text(self.os_arch->0)),
            self.cpu_name is Some ==> present_names(self.update_by_id_columns()).contains("cpu_name"@) && present_values(self.update_by_id_fields()).contains(SqlValue::Text(self.cpu_name->0)),
            self.cpu_vendor is Some ==> present_names(self.update_by_id_columns()).contains("cpu_vendor"@) && present_values(self.update_by_id_fields()).contains(SqlValue::Text(self.cpu_vendor->0)),
            self.cpu_frequency is Some ==> present_names(self.update_by_id_columns()).contains("cpu_frequency"@) && present_values(self.update_by_id_fields()).contains(SqlValue::I64(self.cpu_frequency->0)),
            self.cpu_nums is Some ==> present_names(self.update_by_id_columns()).contains("cpu_nums"@) && present_values(self.update_by_id_fields()).contains(SqlValue::I32(self.cpu_nums->0)),
            self.gmt_create is Some ==> present_names(self.update_by_id_columns()).contains("gmt_create"@) && present_values(self.update_by_id_fields()).contains(SqlValue::Time(self.gmt_create->0)),
            self.gmt_modified is Some ==> present_names(self.update_by_id_columns()).contains("gmt_modified"@) && present_values(self.update_by_id_fields()).contains(SqlValue::Time(self.gmt_modified->0)),
    {
        assert(self.cluster_name is Some ==> present_names(self.update_by_id_columns()).contains("cluster_name"@) && present_values(self.update_by_id_fields()).contains(SqlValue::Text(self.cluster_name->0))) by {
            lemma_named_when_present(self.update_by_id_columns(), 0);
            lemma_bound_when_present(self.update_by_id_fields(), 0);
        }
        assert(self.ip is Some ==> present_names(self.update_by_id_columns()).contains("ip"@) && present_values(self.update_by_id_fields()).contains(SqlValue::Text(self.ip->0))) by {
            lemma_named_when_present(self.update_by_id_columns(), 1);
            lemma_bound_when_present(self.update_by_id_fields(), 1);
        }
        assert(self.version is Some ==> present_names(self.update_by_id_columns()).contains("version"@) && present_values(self.update_by_id_fields()).contains(SqlValue::Text(self.version->0))) by {
            lemma_named_when_present(self.update_by_id_columns(), 2);
            lemma_bound_when_present(self.update_by_id_fields(), 2);
        }
        assert(self.os_name is Some ==> present_names(self.update_by_id_columns()).contains("os_name"@) && present_values(self.update_by_id_fields()).contains(SqlValue::Text(self.os_name->0))) by {
            lemma_named_when_present(self.update_by_id_columns(), 3);
            lemma_bound_when_present(self.update_by_id_fields(), 3);
        }
        assert(self.os_version is Some ==> present_names(self.update_by_id_columns()).contains("os_version"@) && present_values(self.update_by_id_fields()).contains(SqlValue::Text(self.os_version->0))) by {
            lemma_named_when_present(self.update_by_id_columns(), 4);
            lemma_bound_when_present(self.update_by_id_fields(), 4);
        }
        assert(self.os_arch is Some ==> present_names(self.update_by_id_columns()).contains("os_arch"@) && present_values(self.update_by_id_fields()).contains(SqlValue::Text(self.os_arch->0))) by {
            lemma_named_when_present(self.update_by_id_columns(), 5);
            lemma_bound_when_present(self.update_by_id_fields(), 5);
        }
        assert(self.cpu_name is Some ==> present_names(self.update_by_id_columns()).contains("cpu_name"@) && present_values(self.update_by_id_fields()).contains(SqlValue::Text(self.cpu_name->0))) by {
            lemma_named_when_present(self.update_by_id_columns(), 6);
            lemma_bound_when_present(self.update_by_id_fields(), 6);
        }
        assert(self.cpu_vendor is Some ==> present_names(self.update_by_id_columns()).contains("cpu_vendor"@) && present_values(self.update_by_id_fields()).contains(SqlValue::Text(self.cpu_vendor->0))) by {
            lemma_named_when_present(self.update_by_id_columns(), 7);
            lemma_bound_when_present(self.update_by_id_fields(), 7);
        }
        assert(self.cpu_frequency is Some ==> present_names(self.update_by_id_columns()).contains("cpu_frequency"@) && present_values(self.update_by_id_fields()).contains(SqlValue::I64(self.cpu_frequency->0))) by {
            lemma_named_when_present(self.update_by_id_columns(), 8);
            lemma_bound_when_present(self.update_by_id_fields(), 8);
        }
        assert(self.cpu_nums is Some ==> present_names(self.update_by_id_columns()).contains("cpu_nums"@) && present_values(self.update_by_id_fields()).contains(SqlValue::I32(self.cpu_nums->0))) by {
            lemma_named_when_present(self.update_by_id_columns(), 9);
            lemma_bound_when_present(self.update_by_id_fields(), 9);
        }
        assert(self.gmt_create is Some ==> present_names(self.update_by_id_columns()).contains("gmt_create"@) && present_values(self.update_by_id_fields()).contains(SqlValue::Time(self.gmt_create->0))) by {
            lemma_named_when_present(self.update_by_id_columns(), 10);
            lemma_bound_when_present(self.update_by_id_fields(), 10);
        }
        assert(self.gmt_modified is Some ==> present_names(self.update_by_id_columns()).contains("gmt_modified"@) && present_values(self.update_by_id_fields()).contains(SqlValue::Time(self.gmt_modified->0))) by {
            lemma_named_when_present(self.update_by_id_columns(), 11);
            lemma_bound_when_present(self.update_by_id_fields(), 11);
        }
    }

}

impl TbBackend {
    /// Storing the row names every column whose value is present, and binds that value.
    pub proof fn lemma_insert_writes_present_columns(self)
        ensures
            self.id is Some ==> present_names(self.insert_columns()).contains("id"@) && present_values(self.insert_fields()).contains(SqlValue::I64(self.id->0)),
            self.location_id is Some ==> present_names(self.insert_columns()).contains("location_id"@) && present_values(self.insert_fields()).contains(SqlValue::I64(self.location_id->0)),
            self.host is Some ==> present_names(self.insert_columns()).contains("host"@) && present_values(self.insert_fields()).contains(SqlValue::Text(self.host->0)),
            self.port is Some ==> present_names(self.insert_columns()).contains("port"@) && present_values(self.insert_fields()).contains(SqlValue::I32(self.port->0)),
            self.gmt_create is Some ==> present_names(self.insert_columns()).contains("gmt_create"@) && present_values(self.insert_fields()).contains(SqlValue::Time(self.gmt_create->0)),
            self.gmt_modified is Some ==> present_names(self.insert_columns()).contains("gmt_modified"@) && present_values(self.insert_fields()).contains(SqlValue::Time(self.gmt_modified->0)),
    {
        assert(self.id is Some ==> present_names(self.insert_columns()).contains("id"@) && present_values(self.insert_fields()).contains(SqlValue::I64(self.id->0))) by {
            lemma_named_when_present(self.insert_columns(), 0);
            lemma_bound_when_present(self.insert_fields(), 0);
        }
        assert(self.location_id is Some ==> present_names(self.insert_columns()).contains("location_id"@) && present_values(self.insert_fields()).contains(SqlValue::I64(self.location_id->0))) by {
            lemma_named_when_present(self.insert_columns(), 1);
            lemma_bound_when_present(self.insert_fields(), 1);
        }
        assert(self.host is Some ==> present_names(self.insert_columns()).contains("host"@) && present_values(self.insert_fields()).contains(SqlValue::Text(self.host->0))) by {
            lemma_named_when_present(self.insert_columns(), 2);
            lemma_bound_when_present(self.insert_fields(), 2);
        }
        assert(self.port is Some ==> present_names(self.insert_columns()).contains("port"@) && present_values(self.insert_fields()).contains(SqlValue::I32(self.port->0))) by {
            lemma_named_when_present(self.insert_columns(), 3);
            lemma_bound_when_present(self.insert_fields(), 3);
        }
        assert(self.gmt_create is Some ==> present_names(self.insert_columns()).contains("gmt_create"@) && present_values(self.insert_fields()).contains(SqlValue::Time(self.gmt_create->0))) by {
            lemma_named_when_present(self.insert_columns(), 4);
            lemma_bound_when_present(self.insert_fields(), 4);
        }
        assert(self.gmt_modified is Some ==> present_names(self.insert_columns()).contains("gmt_modified"@) && present_values(self.insert_fields()).contains(SqlValue::Time(self.gmt_modified->0))) by {
            lemma_named_when_present(self.insert_columns(), 5);
            lemma_bound_when_present(self.insert_fields(), 5);
        }
    }

}

impl TbChangeLog {
    /// Storing the row names every column whose value is present, and binds that value.
    pub proof fn lemma_insert_writes_present_columns(self)
        ensures
            self.id is Some ==> present_names(self.insert_columns()).contains("id"@) && present_values(self.insert_fields()).contains(SqlValue::I64(self.id->0)),
            self.cluster_name is Some ==> present_names(self.insert_columns()).contains("cluster_name"@) && present_values(self.insert_fields()).contains(SqlValue::Text(self.cluster_name->0)),
            self.log_type is Some ==> present_names(self.insert_columns()).contains("log_type"@) && present_values(self.insert_fields()).contains(SqlValue::I32(self.log_type->0)),
            self.log_action is Some ==> present_names(self.insert_columns()).contains("log_action"@) && present_values(self.insert_fields()).contains(SqlValue::I32(self.log_action->0)),
            self.data_id is Some ==> present_names(self.insert_columns()).contains("data_id"@) && present_values(self.insert_fields()).contains(SqlValue::I64(self.data_id->0)),
            self.data is Some ==> present_names(self.insert_columns()).contains("data"@) && present_values(self.insert_fields()).contains(SqlValue::Text(self.data->0)),
            self.expire_second is Some ==> present_names(self.insert_columns()).contains("expire_second"@) && present_values(self.insert_fields()).contains(SqlValue::I32(self.expire_second->0)),
            self.gmt_create is Some ==> present_names(self.insert_columns()).contains("gmt_create"@) && present_values(self.insert_fields()).contains(SqlValue::Time(self.gmt_create->0)),
            self.gmt_modified is Some ==> present_names(self.insert_columns()).contains("gmt_modified"@) && present_values(self.insert_fields()).contains(SqlValue::Time(self.gmt_modified->0)),
    {
        assert(self.id is Some ==> present_names(self.insert_columns()).contains("id"@) && present_values(self.insert_fields()).contains(SqlValue::I64(self.id->0))) by {
            lemma_named_when_present(self.insert_columns(), 0);
            lemma_bound_when_present(self.insert_fields(), 0);
        }
        assert(self.cluster_name is Some ==> present_names(self.insert_columns()).contains("cluster_name"@) && present_values(self.insert_fields()).contains(SqlValue::Text(self.cluster_name->0))) by {
            lemma_named_when_present(self.insert_columns(), 1);
            lemma_bound_when_present(self.insert_fields(), 1);
        }
        assert(self.log_type is Some ==> present_names(self.insert_columns()).contains("log_type"@) && present_values(self.insert_fields()).contains(SqlValue::I32(self.log_type->0))) by {
            lemma_named_when_present(self.insert_columns(), 2);
            lemma_bound_when_present(self.insert_fields(), 2);
        }
        assert(self.log_action is Some ==> present_names(self.insert_columns()).contains("log_action"@) && present_values(self.insert_fields()).contains(SqlValue::I32(self.log_action->0))) by {
            lemma_named_when_present(self.insert_columns(), 3);
            lemma_bound_when_present(self.insert_fields(), 3);
        }
        assert(self.data_id is Some ==> present_names(self.insert_columns()).contains("data_id"@) && present_values(self.insert_fields()).contains(SqlValue::I64(self.data_id->0))) by {
            lemma_named_when_present(self.insert_columns(), 4);
            lemma_bound_when_present(self.insert_fields(), 4);
        }
        assert(self.data is Some ==> present_names(self.insert_columns()).contains("data"@) && present_values(self.insert_fields()).contains(SqlValue::Text(self.data->0))) by {
            lemma_named_when_present(self.insert_columns(), 5);
            lemma_bound_when_present(self.insert_fields(), 5);
        }
        assert(self.expire_second is Some ==> present_names(self.insert_columns()).contains("expire_second"@) && present_values(self.insert_fields()).contains(SqlValue::I32(self.expire_second->0))) by {
            lemma_named_when_present(self.insert_columns(), 6);
            lemma_bound_when_present(self.insert_fields(), 6);
        }
        assert(self.gmt_create is Some ==> present_names(self.insert_columns()).contains("gmt_create"@) && present_values(self.insert_fields()).contains(SqlValue::Time(self.gmt_create->0))) by {
            lemma_named_when_present(self.insert_columns(), 7);
            lemma_bound_when_present(self.insert_fields(), 7);
        }
        assert(self.gmt_modified is Some ==> present_names(self.insert_columns()).contains("gmt_modified"@) && present_values(self.insert_fields()).contains(SqlValue::Time(self.gmt_modified->0))) by {
            lemma_named_when_present(self.insert_columns(), 8);
            lemma_bound_when_present(self.insert_fields(), 8);
        }
    }

}

impl TbCluster {
    /// Storing the row names every column whose value is present, and binds that value.
    pub proof fn lemma_insert_writes_present_columns(self)
        ensures
            self.id is Some ==> present_names(self.insert_columns()).contains("id"@) && present_values(self.insert_fields()).contains(SqlValue::I64(self.id->0)),
            self.name is Some ==> present_names(self.insert_columns()).contains("name"@) && present_values(self.insert_fields()).contains(SqlValue::Text(self.name->0)),
            self.security_key is Some ==> present_names(self.insert_columns()).contains("security_key"@) && present_values(self.insert_fields()).contains(SqlValue::Text(self.security_key->0)),
            self.description is Some ==> present_names(self.insert_columns()).contains("description"@) && present_values(self.insert_fields()).contains(SqlValue::Text(self.description->0)),
            self.gmt_create is Some ==> present_names(self.insert_columns()).contains("gmt_create"@) && present_values(self.insert_fields()).contains(SqlValue::Time(self.gmt_create->0)),
            self.gmt_modified is Some ==> present_names(self.insert_columns()).contains("gmt_modified"@) && present_values(self.insert_fields()).contains(SqlValue::Time(self.gmt_modified->0)),
            present_names(self.insert_columns()).contains("enable"@) && present_values(self.insert_fields()).contains(SqlValue::Bool(self.enable)),
            present_names(self.insert_columns()).contains("enable_default_site"@) && present_values(self.insert_fields()).contains(SqlValue::Bool(self.enable_default_site)),
            present_names(self.insert_columns()).contains("enable_white_list"@) && present_values(self.insert_fields()).contains(SqlValue::Bool(self.enable_white_list)),
            present_names(self.insert_columns()).contains("enable_block_list"@) && present_values(self.insert_fields()).contains(SqlValue::Bool(self.enable_block_list)),
    {
        assert(self.id is Some ==> present_names(self.insert_columns()).contains("id"@) && present_values(self.insert_fields()).contains(SqlValue::I64(self.id->0))) by {
            lemma_named_when_present(self.insert_columns(), 0);
            lemma_bound_when_present(self.insert_fields(), 0);
        }
        assert(self.name is Some ==> present_names(self.insert_columns()).contains("name"@) && present_values(self.insert_fields()).contains(SqlValue::Text(self.name->0))) by {
            lemma_named_when_present(self.insert_columns(), 1);
            lemma_bound_when_present(self.insert_fields(), 1);
        }
        assert(self.security_key is Some ==> present_names(self.insert_columns()).contains("security_key"@) && present_values(self.insert_fields()).contains(SqlValue::Text(self.security_key->0))) by {
            lemma_named_when_present(self.insert_columns(), 2);
            lemma_bound_when_present(self.insert_fields(), 2);
        }
        assert(self.description is Some ==> present_names(self.insert_columns()).contains("description"@) && present_values(self.insert_fields()).contains(SqlValue::Text(self.description->0))) by {
            lemma_named_when_present(self.insert_columns(), 3);
            lemma_bound_when_present(self.insert_fields(), 3);
        }
        assert(self.gmt_create is Some ==> present_names(self.insert_columns()).contains("gmt_create"@) && present_values(self.insert_fields()).contains(SqlValue::Time(self.gmt_create->0))) by {
            lemma_named_when_present(self.insert_columns(), 4);
            lemma_bound_when_present(self.insert_fields(), 4);
        }
        assert(self.gmt_modified is Some ==> present_names(self.insert_columns()).contains("gmt_modified"@) && present_values(self.insert_fields()).contains(SqlValue::Time(self.gmt_modified->0))) by {
            lemma_named_when_present(self.insert_columns(), 5);
            lemma_bound_when_present(self.insert_fields(), 5);
        }
        assert(present_names(self.insert_columns()).contains("enable"@) && present_values(self.insert_fields()).contains(SqlValue::Bool(self.enable))) by {
            lemma_named_when_present(self.insert_columns(), 6);
            lemma_bound_when_present(self.insert_fields(), 6);
        }
        assert(present_names(self.insert_columns()).contains("enable_default_site"@) && present_values(self.insert_fields()).contains(SqlValue::Bool(self.enable_default_site))) by {
            lemma_named_when_present(self.insert_columns(), 7);
            lemma_bound_when_present(self.insert_fields(), 7);
        }
        assert(present_names(self.insert_columns()).contains("enable_white_list"@) && present_values(self.insert_fields()).contains(SqlValue::Bool(self.enable_white_list))) by {
            lemma_named_when_present(self.insert_columns(), 8);
            lemma_bound_when_present(self.insert_fields(), 8);
        }
        assert(present_names(self.insert_columns()).contains("enable_block_list"@) && present_values(self.insert_fields()).contains(SqlValue::Bool(self.enable_block_list))) by {
            lemma_named_when_present(self.insert_columns(), 9);
            lemma_bound_when_present(self.insert_fields(), 9);
        }
    }

    /// The `update_by_id` statement names every column whose value is present, and binds that value.
    pub proof fn lemma_update_by_id_writes_present_columns(self)
        ensures
            self.name is Some ==> present_names(self.update_by_id_columns()).contains("name"@) && present_values(self.update_by_id_fields()).contains(SqlValue::Text(self.name->0)),
            self.security_key is Some ==> present_names(self.update_by_id_columns()).contains("security_key"@) && present_values(self.update_by_id_fields()).contains(SqlValue::Text(self.security_key->0)),
            self.description is Some ==> present_names(self.update_by_id_columns()).contains("description"@) && present_values(self.update_by_id_fields()).contains(SqlValue::Text(self.description->0)),
            self.gmt_create is Some ==> present_names(self.update_by_id_columns()).contains("gmt_create"@) && present_values(self.update_by_id_fields()).contains(SqlValue::Time(self.gmt_create->0)),
            self.gmt_modified is Some ==> present_names(self.update_by_id_columns()).contains("gmt_modified"@) && present_values(self.update_by_id_fields()).contains(SqlValue::Time(self.gmt_modified->0)),
            present_names(self.update_by_id_columns()).contains("enable"@) && present_values(self.update_by_id_fields()).contains(SqlValue::Bool(self.enable)),
            present_names(self.update_by_id_columns()).contains("enable_default_site"@) && present_values(self.update_by_id_fields()).contains(SqlValue::Bool(self.enable_default_site)),
            present_names(self.update_by_id_columns()).contains("enable_white_list"@) && present_values(self.update_by_id_fields()).contains(SqlValue::Bool(self.enable_white_list)),
            present_names(self.update_by_id_columns()).contains("enable_block_list"@) && present_values(self.update_by_id_fields()).contains(SqlValue::Bool(self.enable_block_list)),
    {
        assert(self.name is Some ==> present_names(self.update_by_id_columns()).contains("name"@) && present_values(self.update_by_id_fields()).contains(SqlValue::Text(self.name->0))) by {
            lemma_named_when_present(self.update_by_id_columns(), 0);
            lemma_bound_when_present(self.update_by_id_fields(), 0);
        }
        assert(self.security_key is Some ==> present_names(self.update_by_id_columns()).contains("security_key"@) && present_values(self.update_by_id_fields()).contains(SqlValue::Text(self.security_key->0))) by {
            lemma_named_when_present(self.update_by_id_columns(), 1);
            lemma_bound_when_present(self.update_by_id_fields(), 1);
        }
        assert(self.description is Some ==> present_names(self.update_by_id_columns()).contains("description"@) && present_values(self.update_by_id_fields()).contains(SqlValue::Text(self.description->0))) by {
            lemma_named_when_present(self.update_by_id_columns(), 2);
            lemma_bound_when_present(self.update_by_id_fields(), 2);
        }
        assert(self.gmt_create is Some ==> present_names(self.update_by_id_columns()).contains("gmt_create"@) && present_values(self.update_by_id_fields()).contains(SqlValue::Time(self.gmt_create->0))) by {
            lemma_named_when_present(self.update_by_id_columns(), 3);
            lemma_bound_when_present(self.update_by_id_fields(), 3);
        }
        assert(self.gmt_modified is Some ==> present_names(self.update_by_id_columns()).contains("gmt_modified"@) && present_values(self.update_by_id_fields()).contains(SqlValue::Time(self.gmt_modified->0))) by {
            lemma_named_when_present(self.update_by_id_columns(), 4);
            lemma_bound_when_present(self.update_by_id_fields(), 4);
        }
        assert(present_names(self.update_by_id_columns()).contains("enable"@) && present_values(self.update_by_id_fields()).contains(SqlValue::Bool(self.enable))) by {
            lemma_named_when_present(self.update_by_id_columns(), 5);
            lemma_bound_when_present(self.update_by_id_fields(), 5);
        }
        assert(present_names(self.update_by_id_columns()).contains("enable_default_site"@) && present_values(self.update_by_id_fields()).contains(SqlValue::Bool(self.enable_default_site))) by {
            lemma_named_when_present(self.update_by_id_columns(), 6);
            lemma_bound_when_present(self.update_by_id_fields(), 6);
        }
        assert(present_names(self.update_by_id_columns()).contains("enable_white_list"@) && present_values(self.update_by_id_fields()).contains(SqlValue::Bool(self.enable_white_list))) by {
            lemma_named_when_present(self.update_by_id_columns(), 7);
            lemma_bound_when_present(self.update_by_id_fields(), 7);
        }
        assert(present_names(self.update_by_id_columns()).contains("enable_block_list"@) && present_values(self.update_by_id_fields()).contains(SqlValue::Bool(self.enable_block_list))) by {
            lemma_named_when_present(self.update_by_id_columns(), 8);
            lemma_bound_when_present(self.update_by_id_fields(), 8);
        }
    }

    /// The `update_by_name` statement names every column whose value is present, and binds that value.
    pub proof fn lemma_update_by_name_writes_present_columns(self)
        ensures
            self.name is Some ==> present_names(self.update_by_name_columns()).contains("name"@) && present_values(self.update_by_name_fields()).contains(SqlValue::Text(self.name->0)),
            self.security_key is Some ==> present_names(self.update_by_name_columns()).contains("security_key"@) && present_values(self.update_by_name_fields()).contains(SqlValue::Text(self.security_key->0)),
            self.description is Some ==> present_names(self.update_by_name_columns()).contains("description"@) && present_values(self.update_by_name_fields()).contains(SqlValue::Text(self.description->0)),
            self.gmt_create is Some ==> present_names(self.update_by_name_columns()).contains("gmt_create"@) && present_values(self.update_by_name_fields()).contains(SqlValue::Time(self.gmt_create->0)),
            self.gmt_modified is Some ==> present_names(self.update_by_name_columns()).contains("gmt_modified"@) && present_values(self.update_by_name_fields()).contains(SqlValue::Time(self.gmt_modified->0)),
            present_names(self.update_by_name_columns()).contains("enable"@) && present_values(self.update_by_name_fields()).contains(SqlValue::Bool(self.enable)),
            present_names(self.update_by_name_columns()).contains("enable_default_site"@) && present_values(self.update_by_name_fields()).contains(SqlValue::Bool(self.enable_default_site)),
            present_names(self.update_by_name_columns()).contains("enable_white_list"@) && present_values(self.update_by_name_fields()).contains(SqlValue::Bool(self.enable_white_list)),
            present_names(self.update_by_name_columns()).contains("enable_block_list"@) && present_values(self.update_by_name_fields()).contains(SqlValue::Bool(self.enable_block_list)),
    {
        assert(self.name is Some ==> present_names(self.update_by_name_columns()).contains("name"@) && present_values(self.update_by_name_fields()).contains(SqlValue::Text(self.name->0))) by {
            lemma_named_when_present(self.update_by_name_columns(), 0);
            lemma_bound_when_present(self.update_by_name_fields(), 0);
        }
        assert(self.security_key is Some ==> present_names(self.update_by_name_columns()).contains("security_key"@) && present_values(self.update_by_name_fields()).contains(SqlValue::Text(self.security_key->0))) by {
            lemma_named_when_present(self.update_by_name_columns(), 1);
            lemma_bound_when_present(self.update_by_name_fields(), 1);
        }
        assert(self.description is Some ==> present_names(self.update_by_name_columns()).contains("description"@) && present_values(self.update_by_name_fields()).contains(SqlValue::Text(self.description->0))) by {
            lemma_named_when_present(self.update_by_name_columns(), 2);
            lemma_bound_when_present(self.update_by_name_fields(), 2);
        }
        assert(self.gmt_create is Some ==> present_names(self.update_by_name_columns()).contains("gmt_create"@) && present_values(self.update_by_name_fields()).contains(SqlValue::Time(self.gmt_create->0))) by {
            lemma_named_when_present(self.update_by_name_columns(), 3);
            lemma_bound_when_present(self.update_by_name_fields(), 3);
        }
        assert(self.gmt_modified is Some ==> present_names(self.update_by_name_columns()).contains("gmt_modified"@) && present_values(self.update_by_name_fields()).contains(SqlValue::Time(self.gmt_modified->0))) by {
            lemma_named_when_present(self.update_by_name_columns(), 4);
            lemma_bound_when_present(self.update_by_name_fields(), 4);
        }
        assert(present_names(self.update_by_name_columns()).contains("enable"@) && present_values(self.update_by_name_fields()).contains(SqlValue::Bool(self.enable))) by {
            lemma_named_when_present(self.update_by_name_columns(), 5);
            lemma_bound_when_present(self.update_by_name_fields(), 5);
        }
        assert(present_names(self.update_by_name_columns()).contains("enable_default_site"@) && present_values(self.update_by_name_fields()).contains(SqlValue::Bool(self.enable_default_site))) by {
            lemma_named_when_present(self.update_by_name_columns(), 6);
            lemma_bound_when_present(self.update_by_name_fields(), 6);
        }
        assert(present_names(self.update_by_name_columns()).contains("enable_white_list"@) && present_values(self.update_by_name_fields()).contains(SqlValue::Bool(self.enable_white_list))) by {
            lemma_named_when_present(self.update_by_name_columns(), 7);
            lemma_bound_when_present(self.update_by_name_fields(), 7);
        }
        assert(present_names(self.update_by_name_columns()).contains("enable_block_list"@) && present_values(self.update_by_name_fields()).contains(SqlValue::Bool(self.enable_block_list))) by {
            lemma_named_when_present(self.update_by_name_columns(), 8);
            lemma_bound_when_present(self.update_by_name_fields(), 8);
        }
    }

}

impl TbConsole {
    /// Storing the row names every column whose value is present, and binds that value.
    pub proof fn lemma_insert_writes_present_columns(self)
        ensures
            self.id is Some ==> present_names(self.insert_columns()).contains("id"@) && present_values(self.insert_fields()).contains(SqlValue::I64(self.id->0)),
            self.host is Some ==> present_names(self.insert_columns()).contains("host"@) && present_values(self.insert_fields()).contains(SqlValue::Text(self.host->0)),
            self.port is Some ==> present_names(self.insert_columns()).contains("port"@) && present_values(self.insert_fields()).contains(SqlValue::I32(self.port->0)),
            self.last_active_time is Some ==> present_names(self.insert_columns()).contains("last_active_time"@) && present_values(self.insert_fields()).contains(SqlValue::Time(self.last_active_time->0)),
            self.gmt_create is Some ==> present_names(self.insert_columns()).contains("gmt_create"@) && present_values(self.insert_fields()).contains(SqlValue::Time(self.gmt_create->0)),
            self.gmt_modified is Some ==> present_names(self.insert_columns()).contains("gmt_modified"@) && present_values(self.insert_fields()).contains(SqlValue::Time(self.gmt_modified->0)),
    {
        assert(self.id is Some ==> present_names(self.insert_columns()).contains("id"@) && present_values(self.insert_fields()).contains(SqlValue::I64(self.id->0))) by {
            lemma_named_when_present(self.insert_columns(), 0);
            lemma_bound_when_present(self.insert_fields(), 0);
        }
        assert(self.host is Some ==> present_names(self.insert_columns()).contains("host"@) && present_values(self.insert_fields()).contains(SqlValue::Text(self.host->0))) by {
            lemma_named_when_present(self.insert_columns(), 1);
            lemma_bound_when_present(self.insert_fields(), 1);
        }
        assert(self.port is Some ==> present_names(self.insert_columns()).contains("port"@) && present_values(self.insert_fields()).contains(SqlValue::I32(self.port->0))) by {
            lemma_named_when_present(self.insert_columns(), 2);
            lemma_bound_when_present(self.insert_fields(), 2);
        }
        assert(self.last_active_time is Some ==> present_names(self.insert_columns()).contains("last_active_time"@) && present_values(self.insert_fields()).contains(SqlValue::Time(self.last_active_time->0))) by {
            lemma_named_when_present(self.insert_columns(), 3);
            lemma_bound_when_present(self.insert_fields(), 3);
        }
        assert(self.gmt_create is Some ==> present_names(self.insert_columns()).contains("gmt_create"@) && present_values(self.insert_fields()).contains(SqlValue::Time(self.gmt_create->0))) by {
            lemma_named_when_present(self.insert_columns(), 4);
            lemma_bound_when_present(self.insert_fields(), 4);
        }
        assert(self.gmt_modified is Some ==> present_names(self.insert_columns()).contains("gmt_modified"@) && present_values(self.insert_fields()).contains(SqlValue::Time(self.gmt_modified->0))) by {
            lemma_named_when_present(self.insert_columns(), 5);
            lemma_bound_when_present(self.insert_fields(), 5);
        }
    }

    /// The `update_by_id` statement names every column whose value is present, and binds that value.
    pub proof fn lemma_update_by_id_writes_present_columns(self)
        ensures
            self.host is Some ==> present_names(self.update_by_id_columns()).contains("host"@) && present_values(self.update_by_id_fields()).contains(SqlValue::Text(self.host->0)),
            self.port is Some ==> present_names(self.update_by_id_columns()).contains("port"@) && present_values(self.update_by_id_fields()).contains(SqlValue::I32(self.port->0)),
            self.last_active_time is Some ==> present_names(self.update_by_id_columns()).contains("last_active_time"@) && present_values(self.update_by_id_fields()).contains(SqlValue::Time(self.last_active_time->0)),
            self.gmt_create is Some ==> present_names(self.update_by_id_columns()).contains("gmt_create"@) && present_values(self.update_by_id_fields()).contains(SqlValue::Time(self.gmt_create->0)),
            self.gmt_modified is Some ==> present_names(self.update_by_id_columns()).contains("gmt_modified"@) && present_values(self.update_by_id_fields()).contains(SqlValue::Time(self.gmt_modified->0)),
    {
        assert(self.host is Some ==> present_names(self.update_by_id_columns()).contains("host"@) && present_values(self.update_by_id_fields()).contains(SqlValue::Text(self.host->0))) by {
            lemma_named_when_present(self.update_by_id_columns(), 0);
            lemma_bound_when_present(self.update_by_id_fields(), 0);
        }
        assert(self.port is Some ==> present_names(self.update_by_id_columns()).contains("port"@) && present_values(self.update_by_id_fields()).contains(SqlValue::I32(self.port->0))) by {
            lemma_named_when_present(self.update_by_id_columns(), 1);
            lemma_bound_when_present(self.update_by_id_fields(), 1);
        }
        assert(self.last_active_time is Some ==> present_names(self.update_by_id_columns()).contains("last_active_time"@) && present_values(self.update_by_id_fields()).contains(SqlValue::Time(self.last_active_time->0))) by {
            lemma_named_when_present(self.update_by_id_columns(), 2);
            lemma_bound_when_present(self.update_by_id_fields(), 2);
        }
        assert(self.gmt_create is Some ==> present_names(self.update_by_id_columns()).contains("gmt_create"@) && present_values(self.update_by_id_fields()).contains(SqlValue::Time(self.gmt_create->0))) by {
            lemma_named_when_present(self.update_by_id_columns(), 3);
            lemma_bound_when_present(self.update_by_id_fields(), 3);
        }
        assert(self.gmt_modified is Some ==> present_names(self.update_by_id_columns()).contains("gmt_modified"@) && present_values(self.update_by_id_fields()).contains(SqlValue::Time(self.gmt_modified->0))) by {
            lemma_named_when_present(self.update_by_id_columns(), 4);
            lemma_bound_when_present(self.update_by_id_fields(), 4);
        }
    }

}

impl TbLocation {
    /// Storing the row names every column whose value is present, and binds that value.
    pub proof fn lemma_insert_writes_present_columns(self)
        ensures
            self.id is Some ==> present_names(self.insert_columns()).contains("id"@) && present_values(self.insert_fields()).contains(SqlValue::I64(self.id->0)),
            self.site_id is Some ==> present_names(self.insert_columns()).contains("site_id"@) && present_values(self.insert_fields()).contains(SqlValue::I64(self.site_id->0)),
            self.location is Some ==> present_names(self.insert_columns()).contains("location"@) && present_values(self.insert_fields()).contains(SqlValue::Text(self.location->0)),
            self.proxy is Some ==> present_names(self.insert_columns()).contains("proxy"@) && present_values(self.insert_fields()).contains(SqlValue::I8(self.proxy->0)),
            self.protocol is Some ==> present_names(self.insert_columns()).contains("protocol"@) && present_values(self.insert_fields()).contains(SqlValue::Text(self.protocol->0)),
            self.sni is Some ==> present_names(self.insert_columns()).contains("sni"@) && present_values(self.insert_fields()).contains(SqlValue::Text(self.sni->0)),
            self.client_max_body_size is Some ==> present_names(self.insert_columns()).contains("client_max_body_size"@) && present_values(self.insert_fields()).contains(SqlValue::I64(self.client_max_body_size->0)),
            self.connection_timeout is Some ==> present_names(self.insert_columns()).contains("connection_timeout"@) && present_values(self.insert_fields()).contains(SqlValue::I32(self.connection_timeout->0)),
            self.read_timeout is Some ==> present_names(self.insert_columns()).contains("read_timeout"@) && present_values(self.insert_fields()).contains(SqlValue::I32(self.read_timeout->0)),
            self.write_timeout is Some ==> present_names(self.insert_columns()).contains("write_timeout"@) && present_values(self.insert_fields()).contains(SqlValue::I32(self.write_timeout->0)),
            self.idle_timeout is Some ==> present_names(self.insert_columns()).contains("idle_timeout"@) && present_values(self.insert_fields()).contains(SqlValue::I32(self.idle_timeout->0)),
            self.rewrite is Some ==> present_names(self.insert_columns()).contains("rewrite"@) && present_values(self.insert_fields()).contains(SqlValue::Text(self.rewrite->0)),
            self.http_version is Some ==> present_names(self.insert_columns()).contains("http_version"@) && present_values(self.insert_fields()).contains(SqlValue::Text(self.http_version->0)),
            self.proxy_set_headers is Some ==> present_names(self.insert_columns()).contains("proxy_set_headers"@) && present_values(self.insert_fields()).contains(SqlValue::Text(self.proxy_set_headers->0)),
            self.proxy_add_headers is Some ==> present_names(self.insert_columns()).contains("proxy_add_headers"@) && present_values(self.insert_fields()).contains(SqlValue::Text(self.proxy_add_headers->0)),
            self.proxy_remove_headers is Some ==> present_names(self.insert_columns()).contains("proxy_remove_headers"@) && present_values(self.insert_fields()).contains(SqlValue::Text(self.proxy_remove_headers->0)),
            self.response_set_headers is Some ==> present_names(self.insert_columns()).contains("response_set_headers"@) && present_values(self.insert_fields()).contains(SqlValue::Text(self.response_set_headers->0)),
            self.response_add_headers is Some ==> present_names(self.insert_columns()).contains("response_add_headers"@) && present_values(self.insert_fields()).contains(SqlValue::Text(self.response_add_headers->0)),
            self.response_remove_headers is Some ==> present_names(self.insert_columns()).contains("response_remove_headers"@) && present_values(self.insert_fields()).contains(SqlValue::Text(self.response_remove_headers->0)),
            self.root_dir is Some ==> present_names(self.insert_columns()).contains("root_dir"@) && present_values(self.insert_fields()).contains(SqlValue::Text(self.root_dir->0)),
            self.auto_index is Some ==> present_names(self.insert_columns()).contains("auto_index"@) && present_values(self.insert_fields()).contains(SqlValue::I8(self.auto_index->0)),
            self.gmt_create is Some ==> present_names(self.insert_columns()).contains("gmt_create"@) && present_values(self.insert_fields()).contains(SqlValue::Time(self.gmt_create->0)),
            self.gmt_modified is Some ==> present_names(self.insert_columns()).contains("gmt_modified"@) && present_values(self.insert_fields()).contains(SqlValue::Time(self.gmt_modified->0)),
    {
        self.lemma_insert_writes_id();
        self.lemma_insert_writes_site_id();
        self.lemma_insert_writes_location();
        self.lemma_insert_writes_proxy();
        self.lemma_insert_writes_protocol();
        self.lemma_insert_writes_sni();
        self.lemma_insert_writes_client_max_body_size();
        self.lemma_insert_writes_connection_timeout();
        self.lemma_insert_writes_read_timeout();
        self.lemma_insert_writes_write_timeout();
        self.lemma_insert_writes_idle_timeout();
        self.lemma_insert_writes_rewrite();
        self.lemma_insert_writes_http_version();
        self.lemma_insert_writes_proxy_set_headers();
        self.lemma_insert_writes_proxy_add_headers();
        self.lemma_insert_writes_proxy_remove_headers();
        self.lemma_insert_writes_response_set_headers();
        self.lemma_insert_writes_response_add_headers();
        self.lemma_insert_writes_response_remove_headers();
        self.lemma_insert_writes_root_dir();
        self.lemma_insert_writes_auto_index();
        self.lemma_insert_writes_gmt_create();
        self.lemma_insert_writes_gmt_modified();
    }

    proof fn lemma_insert_writes_id(self)
        ensures
            self.id is Some ==> present_names(self.insert_columns()).contains("id"@) && present_values(self.insert_fields()).contains(SqlValue::I64(self.id->0)),
    {
        reveal(TbLocation::insert_columns_head);
        reveal(TbLocation::insert_columns_tail);
        reveal(TbLocation::insert_fields_head);
        reveal(TbLocation::insert_fields_tail);
        lemma_named_when_present(self.insert_columns(), 0);
        lemma_bound_when_present(self.insert_fields(), 0);
    }

    proof fn lemma_insert_writes_site_id(self)
        ensures
            self.site_id is Some ==> present_names(self.insert_columns()).contains("site_id"@) && present_values(self.insert_fields()).contains(SqlValue::I64(self.site_id->0)),
    {
        reveal(TbLocation::insert_columns_head);
        reveal(TbLocation::insert_columns_tail);
        reveal(TbLocation::insert_fields_head);
        reveal(TbLocation::insert_fields_tail);
        lemma_named_when_present(self.insert_columns(), 1);
        lemma_bound_when_present(self.insert_fields(), 1);
    }

    proof fn lemma_insert_writes_location(self)
        ensures
            self.location is Some ==> present_names(self.insert_columns()).contains("location"@) && present_values(self.insert_fields()).contains(SqlValue::Text(self.location->0)),
    {
        reveal(TbLocation::insert_columns_head);
        reveal(TbLocation::insert_columns_tail);
        reveal(TbLocation::insert_fields_head);
        reveal(TbLocation::insert_fields_tail);
        lemma_named_when_present(self.insert_columns(), 2);
        lemma_bound_when_present(self.insert_fields(), 2);
    }

    proof fn lemma_insert_writes_proxy(self)
        ensures
            self.proxy is Some ==> present_names(self.insert_columns()).contains("proxy"@) && present_values(self.insert_fields()).contains(SqlValue::I8(self.proxy->0)),
    {
        reveal(TbLocation::insert_columns_head);
        reveal(TbLocation::insert_columns_tail);
        reveal(TbLocation::insert_fields_head);
        reveal(TbLocation::insert_fields_tail);
        lemma_named_when_present(self.insert_columns(), 3);
        lemma_bound_when_present(self.insert_fields(), 3);
    }

    proof fn lemma_insert_writes_protocol(self)
        ensures
            self.protocol is Some ==> present_names(self.insert_columns()).contains("protocol"@) && present_values(self.insert_fields()).contains(SqlValue::Text(self.protocol->0)),
    {
        reveal(TbLocation::insert_columns_head);
        reveal(TbLocation::insert_columns_tail);
        reveal(TbLocation::insert_fields_head);
        reveal(TbLocation::insert_fields_tail);
        lemma_named_when_present(self.insert_columns(), 4);
        lemma_bound_when_present(self.insert_fields(), 4);
    }

    proof fn lemma_insert_writes_sni(self)
        ensures
            self.sni is Some ==> present_names(self.insert_columns()).contains("sni"@) && present_values(self.insert_fields()).contains(SqlValue::Text(self.sni->0)),
    {
        reveal(TbLocation::insert_columns_head);
        reveal(TbLocation::insert_columns_tail);
        reveal(TbLocation::insert_fields_head);
        reveal(TbLocation::insert_fields_tail);
        lemma_named_when_present(self.insert_columns(), 5);
        lemma_bound_when_present(self.insert_fields(), 5);
    }

    proof fn lemma_insert_writes_client_max_body_size(self)
        ensures
            self.client_max_body_size is Some ==> present_names(self.insert_columns()).contains("client_max_body_size"@) && present_values(self.insert_fields()).contains(SqlValue::I64(self.client_max_body_size->0)),
    {
        reveal(TbLocation::insert_columns_head);
        reveal(TbLocation::insert_columns_tail);
        reveal(TbLocation::insert_fields_head);
        reveal(TbLocation::insert_fields_tail);
        lemma_named_when_present(self.insert_columns(), 6);
        lemma_bound_when_present(self.insert_fields(), 6);
    }

    proof fn lemma_insert_writes_connection_timeout(self)
        ensures
            self.connection_timeout is Some ==> present_names(self.insert_columns()).contains("connection_timeout"@) && present_values(self.insert_fields()).contains(SqlValue::I32(self.connection_timeout->0)),
    {
        reveal(TbLocation::insert_columns_head);
        reveal(TbLocation::insert_columns_tail);
        reveal(TbLocation::insert_fields_head);
        reveal(TbLocation::insert_fields_tail);
        lemma_named_when_present(self.insert_columns(), 7);
        lemma_bound_when_present(self.insert_fields(), 7);
    }

    proof fn lemma_insert_writes_read_timeout(self)
        ensures
            self.read_timeout is Some ==> present_names(self.insert_columns()).contains("read_timeout"@) && present_values(self.insert_fields()).contains(SqlValue::I32(self.read_timeout->0)),
    {
        reveal(TbLocation::insert_columns_head);
        reveal(TbLocation::insert_columns_tail);
        reveal(TbLocation::insert_fields_head);
        reveal(TbLocation::insert_fields_tail);
        lemma_named_when_present(self.insert_columns(), 8);
        lemma_bound_when_present(self.insert_fields(), 8);
    }

    proof fn lemma_insert_writes_write_timeout(self)
        ensures
            self.write_timeout is Some ==> present_names(self.insert_columns()).contains("write_timeout"@) && present_values(self.insert_fields()).contains(SqlValue::I32(self.write_timeout->0)),
    {
        reveal(TbLocation::insert_columns_head);
        reveal(TbLocation::insert_columns_tail);
        reveal(TbLocation::insert_fields_head);
        reveal(TbLocation::insert_fields_tail);
        lemma_named_when_present(self.insert_columns(), 9);
        lemma_bound_when_present(self.insert_fields(), 9);
    }

    proof fn lemma_insert_writes_idle_timeout(self)
        ensures
            self.idle_timeout is Some ==> present_names(self.insert_columns()).contains("idle_timeout"@) && present_values(self.insert_fields()).contains(SqlValue::I32(self.idle_timeout->0)),
    {
        reveal(TbLocation::insert_columns_head);
        reveal(TbLocation::insert_columns_tail);
        reveal(TbLocation::insert_fields_head);
        reveal(TbLocation::insert_fields_tail);
        lemma_named_when_present(self.insert_columns(), 10);
        lemma_bound_when_present(self.insert_fields(), 10);
    }

    proof fn lemma_insert_writes_rewrite(self)
        ensures
            self.rewrite is Some ==> present_names(self.insert_columns()).contains("rewrite"@) && present_values(self.insert_fields()).contains(SqlValue::Text(self.rewrite->0)),
    {
        reveal(TbLocation::insert_columns_head);
        reveal(TbLocation::insert_columns_tail);
        reveal(TbLocation::insert_fields_head);
        reveal(TbLocation::insert_fields_tail);
        lemma_named_when_present(self.insert_columns(), 11);
        lemma_bound_when_present(self.insert_fields(), 11);
    }

    proof fn lemma_insert_writes_http_version(self)
        ensures
            self.http_version is Some ==> present_names(self.insert_columns()).contains("http_version"@) && present_values(self.insert_fields()).contains(SqlValue::Text(self.http_version->0)),
    {
        reveal(TbLocation::insert_columns_head);
        reveal(TbLocation::insert_columns_tail);
        reveal(TbLocation::insert_fields_head);
        reveal(TbLocation::insert_fields_tail);
        lemma_named_when_present(self.insert_columns(), 12);
        lemma_bound_when_present(self.insert_fields(), 12);
    }

    proof fn lemma_insert_writes_proxy_set_headers(self)
        ensures
            self.proxy_set_headers is Some ==> present_names(self.insert_columns()).contains("proxy_set_headers"@) && present_values(self.insert_fields()).contains(SqlValue::Text(self.proxy_set_headers->0)),
    {
        reveal(TbLocation::insert_columns_head);
        reveal(TbLocation::insert_columns_tail);
        reveal(TbLocation::insert_fields_head);
        reveal(TbLocation::insert_fields_tail);
        lemma_named_when_present(self.insert_columns(), 13);
        lemma_bound_when_present(self.insert_fields(), 13);
    }

    proof fn lemma_insert_writes_proxy_add_headers(self)
        ensures
            self.proxy_add_headers is Some ==> present_names(self.insert_columns()).contains("proxy_add_headers"@) && present_values(self.insert_fields()).contains(SqlValue::Text(self.proxy_add_headers->0)),
    {
        reveal(TbLocation::insert_columns_head);
        reveal(TbLocation::insert_columns_tail);
        reveal(TbLocation::insert_fields_head);
        reveal(TbLocation::insert_fields_tail);
        lemma_named_when_present(self.insert_columns(), 14);
        lemma_bound_when_present(self.insert_fields(), 14);
    }

    proof fn lemma_insert_writes_proxy_remove_headers(self)
        ensures
            self.proxy_remove_headers is Some ==> present_names(self.insert_columns()).contains("proxy_remove_headers"@) && present_values(self.insert_fields()).contains(SqlValue::Text(self.proxy_remove_headers->0)),
    {
        reveal(TbLocation::insert_columns_head);
        reveal(TbLocation::insert_columns_tail);
        reveal(TbLocation::insert_fields_head);
        reveal(TbLocation::insert_fields_tail);
        lemma_named_when_present(self.insert_columns(), 15);
        lemma_bound_when_present(self.insert_fields(), 15);
    }

    proof fn lemma_insert_writes_response_set_headers(self)
        ensures
            self.response_set_headers is Some ==> present_names(self.insert_columns()).contains("response_set_headers"@) && present_values(self.insert_fields()).contains(SqlValue::Text(self.response_set_headers->0)),
    {
        reveal(TbLocation::insert_columns_head);
        reveal(TbLocation::insert_columns_tail);
        reveal(TbLocation::insert_fields_head);
        reveal(TbLocation::insert_fields_tail);
        lemma_named_when_present(self.insert_columns(), 16);
        lemma_bound_when_present(self.insert_fields(), 16);
    }

    proof fn lemma_insert_writes_response_add_headers(self)
        ensures
            self.response_add_headers is Some ==> present_names(self.insert_columns()).contains("response_add_headers"@) && present_values(self.insert_fields()).contains(SqlValue::Text(self.response_add_headers->0)),
    {
        reveal(TbLocation::insert_columns_head);
        reveal(TbLocation::insert_columns_tail);
        reveal(TbLocation::insert_fields_head);
        reveal(TbLocation::insert_fields_tail);
        lemma_named_when_present(self.insert_columns(), 17);
        lemma_bound_when_present(self.insert_fields(), 17);
    }

    proof fn lemma_insert_writes_response_remove_headers(self)
        ensures
            self.response_remove_headers is Some ==> present_names(self.insert_columns()).contains("response_remove_headers"@) && present_values(self.insert_fields()).contains(SqlValue::Text(self.response_remove_headers->0)),
    {
        reveal(TbLocation::insert_columns_head);
        reveal(TbLocation::insert_columns_tail);
        reveal(TbLocation::insert_fields_head);
        reveal(TbLocation::insert_fields_tail);
        lemma_named_when_present(self.insert_columns(), 18);
        lemma_bound_when_present(self.insert_fields(), 18);
    }

    proof fn lemma_insert_writes_root_dir(self)
        ensures
            self.root_dir is Some ==> present_names(self.insert_columns()).contains("root_dir"@) && present_values(self.insert_fields()).contains(SqlValue::Text(self.root_dir->0)),
    {
        reveal(TbLocation::insert_columns_head);
        reveal(TbLocation::insert_columns_tail);
        reveal(TbLocation::insert_fields_head);
        reveal(TbLocation::insert_fields_tail);
        lemma_named_when_present(self.insert_columns(), 19);
        lemma_bound_when_present(self.insert_fields(), 19);
    }

    proof fn lemma_insert_writes_auto_index(self)
        ensures
            self.auto_index is Some ==> present_names(self.insert_columns()).contains("auto_index"@) && present_values(self.insert_fields()).contains(SqlValue::I8(self.auto_index->0)),
    {
        reveal(TbLocation::insert_columns_head);
        reveal(TbLocation::insert_columns_tail);
        reveal(TbLocation::insert_fields_head);
        reveal(TbLocation::insert_fields_tail);
        lemma_named_when_present(self.insert_columns(), 20);
        lemma_bound_when_present(self.insert_fields(), 20);
    }

    proof fn lemma_insert_writes_gmt_create(self)
        ensures
            self.gmt_create is Some ==> present_names(self.insert_columns()).contains("gmt_create"@) && present_values(self.insert_fields()).contains(SqlValue::Time(self.gmt_create->0)),
    {
        reveal(TbLocation::insert_columns_head);
        reveal(TbLocation::insert_columns_tail);
        reveal(TbLocation::insert_fields_head);
        reveal(TbLocation::insert_fields_tail);
        lemma_named_when_present(self.insert_columns(), 21);
        lemma_bound_when_present(self.insert_fields(), 21);
    }

    proof fn lemma_insert_writes_gmt_modified(self)
        ensures
            self.gmt_modified is Some ==> present_names(self.insert_columns()).contains("gmt_modified"@) && present_values(self.insert_fields()).contains(SqlValue::Time(self.gmt_modified->0)),
    {
        reveal(TbLocation::insert_columns_head);
        reveal(TbLocation::insert_columns_tail);
        reveal(TbLocation::insert_fields_head);
        reveal(TbLocation::insert_fields_tail);
        lemma_named_when_present(self.insert_columns(), 22);
        lemma_bound_when_present(self.insert_fields(), 22);
    }

    /// The `update_by_id` statement names every column whose value is present, and binds that value.
    pub proof fn lemma_update_by_id_writes_present_columns(self)
        ensures
            self.site_id is Some ==> present_names(self.update_by_id_columns()).contains("site_id"@) && present_values(self.update_by_id_fields()).contains(SqlValue::I64(self.site_id->0)),
            self.location is Some ==> present_names(self.update_by_id_columns()).contains("location"@) && present_values(self.update_by_id_fields()).contains(SqlValue::Text(self.location->0)),
            self.proxy is Some ==> present_names(self.update_by_id_columns()).contains("proxy"@) && present_values(self.update_by_id_fields()).contains(SqlValue::I8(self.proxy->0)),
            self.protocol is Some ==> present_names(self.update_by_id_columns()).contains("protocol"@) && present_values(self.update_by_id_fields()).contains(SqlValue::Text(self.protocol->0)),
            self.sni is Some ==> present_names(self.update_by_id_columns()).contains("sni"@) && present_values(self.update_by_id_fields()).contains(SqlValue::Text(self.sni->0)),
            self.client_max_body_size is Some ==> present_names(self.update_by_id_columns()).contains("client_max_body_size"@) && present_values(self.update_by_id_fields()).contains(SqlValue::I64(self.client_max_body_size->0)),
            self.connection_timeout is Some ==> present_names(self.update_by_id_columns()).contains("connection_timeout"@) && present_values(self.update_by_id_fields()).contains(SqlValue::I32(self.connection_timeout->0)),
            self.read_timeout is Some ==> present_names(self.update_by_id_columns()).contains("read_timeout"@) && present_values(self.update_by_id_fields()).contains(SqlValue::I32(self.read_timeout->0)),
            self.write_timeout is Some ==> present_names(self.update_by_id_columns()).contains("write_timeout"@) && present_values(self.update_by_id_fields()).contains(SqlValue::I32(self.write_timeout->0)),
            self.idle_timeout is Some ==> present_names(self.update_by_id_columns()).contains("idle_timeout"@) && present_values(self.update_by_id_fields()).contains(SqlValue::I32(self.idle_timeout->0)),
            self.rewrite is Some ==> present_names(self.update_by_id_columns()).contains("rewrite"@) && present_values(self.update_by_id_fields()).contains(SqlValue::Text(self.rewrite->0)),
            self.http_version is Some ==> present_names(self.update_by_id_columns()).contains("http_version"@) && present_values(self.update_by_id_fields()).contains(SqlValue::Text(self.http_version->0)),
            self.proxy_set_headers is Some ==> present_names(self.update_by_id_columns()).contains("proxy_set_headers"@) && present_values(self.update_by_id_fields()).contains(SqlValue::Text(self.proxy_set_headers->0)),
            self.proxy_add_headers is Some ==> present_names(self.update_by_id_columns()).contains("proxy_add_headers"@) && present_values(self.update_by_id_fields()).contains(SqlValue::Text(self.proxy_add_headers->0)),
            self.proxy_remove_headers is Some ==> present_names(self.update_by_id_columns()).contains("proxy_remove_headers"@) && present_values(self.update_by_id_fields()).contains(SqlValue::Text(self.proxy_remove_headers->0)),
            self.response_set_headers is Some ==> present_names(self.update_by_id_columns()).contains("response_set_headers"@) && present_values(self.update_by_id_fields()).contains(SqlValue::Text(self.response_set_headers->0)),
            self.response_add_headers is Some ==> present_names(self.update_by_id_columns()).contains("response_add_headers"@) && present_values(self.update_by_id_fields()).contains(SqlValue::Text(self.response_add_headers->0)),
            self.response_remove_headers is Some ==> present_names(self.update_by_id_columns()).contains("response_remove_headers"@) && present_values(self.update_by_id_fields()).contains(SqlValue::Text(self.response_remove_headers->0)),
            self.root_dir is Some ==> present_names(self.update_by_id_columns()).contains("root_dir"@) && present_values(self.update_by_id_fields()).contains(SqlValue::Text(self.root_dir->0)),
            self.auto_index is Some ==> present_names(self.update_by_id_columns()).contains("auto_index"@) && present_values(self.update_by_id_fields()).contains(SqlValue::I8(self.auto_index->0)),
            self.gmt_create is Some ==> present_names(self.update_by_id_columns()).contains("gmt_create"@) && present_values(self.update_by_id_fields()).contains(SqlValue::Time(self.gmt_create->0)),
            self.gmt_modified is Some ==> present_names(self.update_by_id_columns()).contains("gmt_modified"@) && present_values(self.update_by_id_fields()).contains(SqlValue::Time(self.gmt_modified->0)),
    {
        self.lemma_update_by_id_writes_site_id();
        self.lemma_update_by_id_writes_location();
        self.lemma_update_by_id_writes_proxy();
        self.lemma_update_by_id_writes_protocol();
        self.lemma_update_by_id_writes_sni();
        self.lemma_update_by_id_writes_client_max_body_size();
        self.lemma_update_by_id_writes_connection_timeout();
        self.lemma_update_by_id_writes_read_timeout();
        self.lemma_update_by_id_writes_write_timeout();
        self.lemma_update_by_id_writes_idle_timeout();
        self.lemma_update_by_id_writes_rewrite();
        self.lemma_update_by_id_writes_http_version();
        self.lemma_update_by_id_writes_proxy_set_headers();
        self.lemma_update_by_id_writes_proxy_add_headers();
        self.lemma_update_by_id_writes_proxy_remove_headers();
        self.lemma_update_by_id_writes_response_set_headers();
        self.lemma_update_by_id_writes_response_add_headers();
        self.lemma_update_by_id_writes_response_remove_headers();
        self.lemma_update_by_id_writes_root_dir();
        self.lemma_update_by_id_writes_auto_index();
        self.lemma_update_by_id_writes_gmt_create();
        self.lemma_update_by_id_writes_gmt_modified();
    }

    proof fn lemma_update_by_id_writes_site_id(self)
        ensures
            self.site_id is Some ==> present_names(self.update_by_id_columns()).contains("site_id"@) && present_values(self.update_by_id_fields()).contains(SqlValue::I64(self.site_id->0)),
    {
        reveal(TbLocation::update_by_id_columns_head);
        reveal(TbLocation::update_by_id_columns_tail);
        reveal(TbLocation::update_by_id_fields_head);
        reveal(TbLocation::update_by_id_fields_tail);
        lemma_named_when_present(self.update_by_id_columns(), 0);
        lemma_bound_when_present(self.update_by_id_fields(), 0);
    }

    proof fn lemma_update_by_id_writes_location(self)
        ensures
            self.location is Some ==> present_names(self.update_by_id_columns()).contains("location"@) && present_values(self.update_by_id_fields()).contains(SqlValue::Text(self.location->0)),
    {
        reveal(TbLocation::update_by_id_columns_head);
        reveal(TbLocation::update_by_id_columns_tail);
        reveal(TbLocation::update_by_id_fields_head);
        reveal(TbLocation::update_by_id_fields_tail);
        lemma_named_when_present(self.update_by_id_columns(), 1);
        lemma_bound_when_present(self.update_by_id_fields(), 1);
    }

    proof fn lemma_update_by_id_writes_proxy(self)
        ensures
            self.proxy is Some ==> present_names(self.update_by_id_columns()).contains("proxy"@) && present_values(self.update_by_id_fields()).contains(SqlValue::I8(self.proxy->0)),
    {
        reveal(TbLocation::update_by_id_columns_head);
        reveal(TbLocation::update_by_id_columns_tail);
        reveal(TbLocation::update_by_id_fields_head);
        reveal(TbLocation::update_by_id_fields_tail);
        lemma_named_when_present(self.update_by_id_columns(), 2);
        lemma_bound_when_present(self.update_by_id_fields(), 2);
    }

    proof fn lemma_update_by_id_writes_protocol(self)
        ensures
            self.protocol is Some ==> present_names(self.update_by_id_columns()).contains("protocol"@) && present_values(self.update_by_id_fields()).contains(SqlValue::Text(self.protocol->0)),
    {
        reveal(TbLocation::update_by_id_columns_head);
        reveal(TbLocation::update_by_id_columns_tail);
        reveal(TbLocation::update_by_id_fields_head);
        reveal(TbLocation::update_by_id_fields_tail);
        lemma_named_when_present(self.update_by_id_columns(), 3);
        lemma_bound_when_present(self.update_by_id_fields(), 3);
    }

    proof fn lemma_update_by_id_writes_sni(self)
        ensures
            self.sni is Some ==> present_names(self.update_by_id_columns()).contains("sni"@) && present_values(self.update_by_id_fields()).contains(SqlValue::Text(self.sni->0)),
    {
        reveal(TbLocation::update_by_id_columns_head);
        reveal(TbLocation::update_by_id_columns_tail);
        reveal(TbLocation::update_by_id_fields_head);
        reveal(TbLocation::update_by_id_fields_tail);
        lemma_named_when_present(self.update_by_id_columns(), 4);
        lemma_bound_when_present(self.update_by_id_fields(), 4);
    }

    proof fn lemma_update_by_id_writes_client_max_body_size(self)
        ensures
            self.client_max_body_size is Some ==> present_names(self.update_by_id_columns()).contains("client_max_body_size"@) && present_values(self.update_by_id_fields()).contains(SqlValue::I64(self.client_max_body_size->0)),
    {
        reveal(TbLocation::update_by_id_columns_head);
        reveal(TbLocation::update_by_id_columns_tail);
        reveal(TbLocation::update_by_id_fields_head);
        reveal(TbLocation::update_by_id_fields_tail);
        lemma_named_when_present(self.update_by_id_columns(), 5);
        lemma_bound_when_present(self.update_by_id_fields(), 5);
    }

    proof fn lemma_update_by_id_writes_connection_timeout(self)
        ensures
            self.connection_timeout is Some ==> present_names(self.update_by_id_columns()).contains("connection_timeout"@) && present_values(self.update_by_id_fields()).contains(SqlValue::I32(self.connection_timeout->0)),
    {
        reveal(TbLocation::update_by_id_columns_head);
        reveal(TbLocation::update_by_id_columns_tail);
        reveal(TbLocation::update_by_id_fields_head);
        reveal(TbLocation::update_by_id_fields_tail);
        lemma_named_when_present(self.update_by_id_columns(), 6);
        lemma_bound_when_present(self.update_by_id_fields(), 6);
    }

    proof fn lemma_update_by_id_writes_read_timeout(self)
        ensures
            self.read_timeout is Some ==> present_names(self.update_by_id_columns()).contains("read_timeout"@) && present_values(self.update_by_id_fields()).contains(SqlValue::I32(self.read_timeout->0)),
    {
        reveal(TbLocation::update_by_id_columns_head);
        reveal(TbLocation::update_by_id_columns_tail);
        reveal(TbLocation::update_by_id_fields_head);
        reveal(TbLocation::update_by_id_fields_tail);
        lemma_named_when_present(self.update_by_id_columns(), 7);
        lemma_bound_when_present(self.update_by_id_fields(), 7);
    }

    proof fn lemma_update_by_id_writes_write_timeout(self)
        ensures
            self.write_timeout is Some ==> present_names(self.update_by_id_columns()).contains("write_timeout"@) && present_values(self.update_by_id_fields()).contains(SqlValue::I32(self.write_timeout->0)),
    {
        reveal(TbLocation::update_by_id_columns_head);
        reveal(TbLocation::update_by_id_columns_tail);
        reveal(TbLocation::update_by_id_fields_head);
        reveal(TbLocation::update_by_id_fields_tail);
        lemma_named_when_present(self.update_by_id_columns(), 8);
        lemma_bound_when_present(self.update_by_id_fields(), 8);
    }

    proof fn lemma_update_by_id_writes_idle_timeout(self)
        ensures
            self.idle_timeout is Some ==> present_names(self.update_by_id_columns()).contains("idle_timeout"@) && present_values(self.update_by_id_fields()).contains(SqlValue::I32(self.idle_timeout->0)),
    {
        reveal(TbLocation::update_by_id_columns_head);
        reveal(TbLocation::update_by_id_columns_tail);
        reveal(TbLocation::update_by_id_fields_head);
        reveal(TbLocation::update_by_id_fields_tail);
        lemma_named_when_present(self.update_by_id_columns(), 9);
        lemma_bound_when_present(self.update_by_id_fields(), 9);
    }

    proof fn lemma_update_by_id_writes_rewrite(self)
        ensures
            self.rewrite is Some ==> present_names(self.update_by_id_columns()).contains("rewrite"@) && present_values(self.update_by_id_fields()).contains(SqlValue::Text(self.rewrite->0)),
    {
        reveal(TbLocation::update_by_id_columns_head);
        reveal(TbLocation::update_by_id_columns_tail);
        reveal(TbLocation::update_by_id_fields_head);
        reveal(TbLocation::update_by_id_fields_tail);
        lemma_named_when_present(self.update_by_id_columns(), 10);
        lemma_bound_when_present(self.update_by_id_fields(), 10);
    }

    proof fn lemma_update_by_id_writes_http_version(self)
        ensures
            self.http_version is Some ==> present_names(self.update_by_id_columns()).contains("http_version"@) && present_values(self.update_by_id_fields()).contains(SqlValue::Text(self.http_version->0)),
    {
        reveal(TbLocation::update_by_id_columns_head);
        reveal(TbLocation::update_by_id_columns_tail);
        reveal(TbLocation::update_by_id_fields_head);
        reveal(TbLocation::update_by_id_fields_tail);
        lemma_named_when_present(self.update_by_id_columns(), 11);
        lemma_bound_when_present(self.update_by_id_fields(), 11);
    }

    proof fn lemma_update_by_id_writes_proxy_set_headers(self)
        ensures
            self.proxy_set_headers is Some ==> present_names(self.update_by_id_columns()).contains("proxy_set_headers"@) && present_values(self.update_by_id_fields()).contains(SqlValue::Text(self.proxy_set_headers->0)),
    {
        reveal(TbLocation::update_by_id_columns_head);
        reveal(TbLocation::update_by_id_columns_tail);
        reveal(TbLocation::update_by_id_fields_head);
        reveal(TbLocation::update_by_id_fields_tail);
        lemma_named_when_present(self.update_by_id_columns(), 12);
        lemma_bound_when_present(self.update_by_id_fields(), 12);
    }

    proof fn lemma_update_by_id_writes_proxy_add_headers(self)
        ensures
            self.proxy_add_headers is Some ==> present_names(self.update_by_id_columns()).contains("proxy_add_headers"@) && present_values(self.update_by_id_fields()).contains(SqlValue::Text(self.proxy_add_headers->0)),
    {
        reveal(TbLocation::update_by_id_columns_head);
        reveal(TbLocation::update_by_id_columns_tail);
        reveal(TbLocation::update_by_id_fields_head);
        reveal(TbLocation::update_by_id_fields_tail);
        lemma_named_when_present(self.update_by_id_columns(), 13);
        lemma_bound_when_present(self.update_by_id_fields(), 13);
    }

    proof fn lemma_update_by_id_writes_proxy_remove_headers(self)
        ensures
            self.proxy_remove_headers is Some ==> present_names(self.update_by_id_columns()).contains("proxy_remove_headers"@) && present_values(self.update_by_id_fields()).contains(SqlValue::Text(self.proxy_remove_headers->0)),
    {
        reveal(TbLocation::update_by_id_columns_head);
        reveal(TbLocation::update_by_id_columns_tail);
        reveal(TbLocation::update_by_id_fields_head);
        reveal(TbLocation::update_by_id_fields_tail);
        lemma_named_when_present(self.update_by_id_columns(), 14);
        lemma_bound_when_present(self.update_by_id_fields(), 14);
    }

    proof fn lemma_update_by_id_writes_response_set_headers(self)
        ensures
            self.response_set_headers is Some ==> present_names(self.update_by_id_columns()).contains("response_set_headers"@) && present_values(self.update_by_id_fields()).contains(SqlValue::Text(self.response_set_headers->0)),
    {
        reveal(TbLocation::update_by_id_columns_head);
        reveal(TbLocation::update_by_id_columns_tail);
        reveal(TbLocation::update_by_id_fields_head);
        reveal(TbLocation::update_by_id_fields_tail);
        lemma_named_when_present(self.update_by_id_columns(), 15);
        lemma_bound_when_present(self.update_by_id_fields(), 15);
    }

    proof fn lemma_update_by_id_writes_response_add_headers(self)
        ensures
            self.response_add_headers is Some ==> present_names(self.update_by_id_columns()).contains("response_add_headers"@) && present_values(self.update_by_id_fields()).contains(SqlValue::Text(self.response_add_headers->0)),
    {
        reveal(TbLocation::update_by_id_columns_head);
        reveal(TbLocation::update_by_id_columns_tail);
        reveal(TbLocation::update_by_id_fields_head);
        reveal(TbLocation::update_by_id_fields_tail);
        lemma_named_when_present(self.update_by_id_columns(), 16);
        lemma_bound_when_present(self.update_by_id_fields(), 16);
    }

    proof fn lemma_update_by_id_writes_response_remove_headers(self)
        ensures
            self.response_remove_headers is Some ==> present_names(self.update_by_id_columns()).contains("response_remove_headers"@) && present_values(self.update_by_id_fields()).contains(SqlValue::Text(self.response_remove_headers->0)),
    {
        reveal(TbLocation::update_by_id_columns_head);
        reveal(TbLocation::update_by_id_columns_tail);
        reveal(TbLocation::update_by_id_fields_head);
        reveal(TbLocation::update_by_id_fields_tail);
        lemma_named_when_present(self.update_by_id_columns(), 17);
        lemma_bound_when_present(self.update_by_id_fields(), 17);
    }

    proof fn lemma_update_by_id_writes_root_dir(self)
        ensures
            self.root_dir is Some ==> present_names(self.update_by_id_columns()).contains("root_dir"@) && present_values(self.update_by_id_fields()).contains(SqlValue::Text(self.root_dir->0)),
    {
        reveal(TbLocation::update_by_id_columns_head);
        reveal(TbLocation::update_by_id_columns_tail);
        reveal(TbLocation::update_by_id_fields_head);
        reveal(TbLocation::update_by_id_fields_tail);
        lemma_named_when_present(self.update_by_id_columns(), 18);
        lemma_bound_when_present(self.update_by_id_fields(), 18);
    }

    proof fn lemma_update_by_id_writes_auto_index(self)
        ensures
            self.auto_index is Some ==> present_names(self.update_by_id_columns()).contains("auto_index"@) && present_values(self.update_by_id_fields()).contains(SqlValue::I8(self.auto_index->0)),
    {
        reveal(TbLocation::update_by_id_columns_head);
        reveal(TbLocation::update_by_id_columns_tail);
        reveal(TbLocation::update_by_id_fields_head);
        reveal(TbLocation::update_by_id_fields_tail);
        lemma_named_when_present(self.update_by_id_columns(), 19);
        lemma_bound_when_present(self.update_by_id_fields(), 19);
    }

    proof fn lemma_update_by_id_writes_gmt_create(self)
        ensures
            self.gmt_create is Some ==> present_names(self.update_by_id_columns()).contains("gmt_create"@) && present_values(self.update_by_id_fields()).contains(SqlValue::Time(self.gmt_create->0)),
    {
        reveal(TbLocation::update_by_id_columns_head);
        reveal(TbLocation::update_by_id_columns_tail);
        reveal(TbLocation::update_by_id_fields_head);
        reveal(TbLocation::update_by_id_fields_tail);
        lemma_named_when_present(self.update_by_id_columns(), 20);
        lemma_bound_when_present(self.update_by_id_fields(), 20);
    }

    proof fn lemma_update_by_id_writes_gmt_modified(self)
        ensures
            self.gmt_modified is Some ==> present_names(self.update_by_id_columns()).contains("gmt_modified"@) && present_values(self.update_by_id_fields()).contains(SqlValue::Time(self.gmt_modified->0)),
    {
        reveal(TbLocation::update_by_id_columns_head);
        reveal(TbLocation::update_by_id_columns_tail);
        reveal(TbLocation::update_by_id_fields_head);
        reveal(TbLocation::update_by_id_fields_tail);
        lemma_named_when_present(self.update_by_id_columns(), 21);
        lemma_bound_when_present(self.update_by_id_fields(), 21);
    }

}

impl TbSession {
    /// Storing the row names every column whose value is present, and binds that value.
    pub proof fn lemma_insert_writes_present_columns(self)
        ensures
            self.id is Some ==> present_names(self.insert_columns()).contains("id"@) && present_values(self.insert_fields()).contains(SqlValue::I64(self.id->0)),
            self.user is Some ==> present_names(self.insert_columns()).contains("user"@) && present_values(self.insert_fields()).contains(SqlValue::Text(self.user->0)),
            self.email is Some ==> present_names(self.insert_columns()).contains("email"@) && present_values(self.insert_fields()).contains(SqlValue::Text(self.email->0)),
            self.login_ip is Some ==> present_names(self.insert_columns()).contains("login_ip"@) && present_values(self.insert_fields()).contains(SqlValue::Text(self.login_ip->0)),
            self.token is Some ==> present_names(self.insert_columns()).contains("token"@) && present_values(self.insert_fields()).contains(SqlValue::Text(self.token->0)),
            self.gmt_create is Some ==> present_names(self.insert_columns()).contains("gmt_create"@) && present_values(self.insert_fields()).contains(SqlValue::Time(self.gmt_create->0)),
            self.gmt_modified is Some ==> present_names(self.insert_columns()).contains("gmt_modified"@) && present_values(self.insert_fields()).contains(SqlValue::Time(self.gmt_modified->0)),
    {
        assert(self.id is Some ==> present_names(self.insert_columns()).contains("id"@) && present_values(self.insert_fields()).contains(SqlValue::I64(self.id->0))) by {
            lemma_named_when_present(self.insert_columns(), 0);
            lemma_bound_when_present(self.insert_fields(), 0);
        }
        assert(self.user is Some ==> present_names(self.insert_columns()).contains("user"@) && present_values(self.insert_fields()).contains(SqlValue::Text(self.user->0))) by {
            lemma_named_when_present(self.insert_columns(), 1);
            lemma_bound_when_present(self.insert_fields(), 1);
        }
        assert(self.email is Some ==> present_names(self.insert_columns()).contains("email"@) && present_values(self.insert_fields()).contains(SqlValue::Text(self.email->0))) by {
            lemma_named_when_present(self.insert_columns(), 2);
            lemma_bound_when_present(self.insert_fields(), 2);
        }
        assert(self.login_ip is Some ==> present_names(self.insert_columns()).contains("login_ip"@) && present_values(self.insert_fields()).contains(SqlValue::Text(self.login_ip->0))) by {
            lemma_named_when_present(self.insert_columns(), 3);
            lemma_bound_when_present(self.insert_fields(), 3);
        }
        assert(self.token is Some ==> present_names(self.insert_columns()).contains("token"@) && present_values(self.insert_fields()).contains(SqlValue::Text(self.token->0))) by {
            lemma_named_when_present(self.insert_columns(), 4);
            lemma_bound_when_present(self.insert_fields(), 4);
        }
        assert(self.gmt_create is Some ==> present_names(self.insert_columns()).contains("gmt_create"@) && present_values(self.insert_fields()).contains(SqlValue::Time(self.gmt_create->0))) by {
            lemma_named_when_present(self.insert_columns(), 5);
            lemma_bound_when_present(self.insert_fields(), 5);
        }
        assert(self.gmt_modified is Some ==> present_names(self.insert_columns()).contains("gmt_modified"@) && present_values(self.insert_fields()).contains(SqlValue::Time(self.gmt_modified->0))) by {
            lemma_named_when_present(self.insert_columns(), 6);
            lemma_bound_when_present(self.insert_fields(), 6);
        }
    }

    /// The `update_by_token` statement names every column whose value is present, and binds that value.
    pub proof fn lemma_update_by_token_writes_present_columns(self)
        ensures
            self.user is Some ==> present_names(self.update_by_token_columns()).contains("user"@) && present_values(self.update_by_token_fields()).contains(SqlValue::Text(self.user->0)),
            self.email is Some ==> present_names(self.update_by_token_columns()).contains("email"@) && present_values(self.update_by_token_fields()).contains(SqlValue::Text(self.email->0)),
            self.login_ip is Some ==> present_names(self.update_by_token_columns()).contains("login_ip"@) && present_values(self.update_by_token_fields()).contains(SqlValue::Text(self.login_ip->0)),
            self.token is Some ==> present_names(self.update_by_token_columns()).contains("token"@) && present_values(self.update_by_token_fields()).contains(SqlValue::Text(self.token->0)),
            self.gmt_create is Some ==> present_names(self.update_by_token_columns()).contains("gmt_create"@) && present_values(self.update_by_token_fields()).contains(SqlValue::Time(self.gmt_create->0)),
            self.gmt_modified is Some ==> present_names(self.update_by_token_columns()).contains("gmt_modified"@) && present_values(self.update_by_token_fields()).contains(SqlValue::Time(self.gmt_modified->0)),
    {
        assert(self.user is Some ==> present_names(self.update_by_token_columns()).contains("user"@) && present_values(self.update_by_token_fields()).contains(SqlValue::Text(self.user->0))) by {
            lemma_named_when_present(self.update_by_token_columns(), 0);
            lemma_bound_when_present(self.update_by_token_fields(), 0);
        }
        assert(self.email is Some ==> present_names(self.update_by_token_columns()).contains("email"@) && present_values(self.update_by_token_fields()).contains(SqlValue::Text(self.email->0))) by {
            lemma_named_when_present(self.update_by_token_columns(), 1);
            lemma_bound_when_present(self.update_by_token_fields(), 1);
        }
        assert(self.login_ip is Some ==> present_names(self.update_by_token_columns()).contains("login_ip"@) && present_values(self.update_by_token_fields()).contains(SqlValue::Text(self.login_ip->0))) by {
            lemma_named_when_present(self.update_by_token_columns(), 2);
            lemma_bound_when_present(self.update_by_token_fields(), 2);
        }
        assert(self.token is Some ==> present_names(self.update_by_token_columns()).contains("token"@) && present_values(self.update_by_token_fields()).contains(SqlValue::Text(self.token->0))) by {
            lemma_named_when_present(self.update_by_token_columns(), 3);
            lemma_bound_when_present(self.update_by_token_fields(), 3);
        }
        assert(self.gmt_create is Some ==> present_names(self.update_by_token_columns()).contains("gmt_create"@) && present_values(self.update_by_token_fields()).contains(SqlValue::Time(self.gmt_create->0))) by {
            lemma_named_when_present(self.update_by_token_columns(), 4);
            lemma_bound_when_present(self.update_by_token_fields(), 4);
        }
        assert(self.gmt_modified is Some ==> present_names(self.update_by_token_columns()).contains("gmt_modified"@) && present_values(self.update_by_token_fields()).contains(SqlValue::Time(self.gmt_modified->0))) by {
            lemma_named_when_present(self.update_by_token_columns(), 5);
            lemma_bound_when_present(self.update_by_token_fields(), 5);
        }
    }

}

impl TbSite {
    /// Storing the row names every column whose value is present, and binds that value.
    pub proof fn lemma_insert_writes_present_columns(self)
        ensures
            self.id is Some ==> present_names(self.insert_columns()).contains("id"@) && present_values(self.insert_fields()).contains(SqlValue::I64(self.id->0)),
            self.cluster_name is Some ==> present_names(self.insert_columns()).contains("cluster_name"@) && present_values(self.insert_fields()).contains(SqlValue::Text(self.cluster_name->0)),
            self.name is Some ==> present_names(self.insert_columns()).contains("name"@) && present_values(self.insert_fields()).contains(SqlValue::Text(self.name->0)),
            self.alt_names is Some ==> present_names(self.insert_columns()).contains("alt_names"@) && present_values(self.insert_fields()).contains(SqlValue::Text(self.alt_names->0)),
            self.root_dir is Some ==> present_names(self.insert_columns()).contains("root_dir"@) && present_values(self.insert_fields()).contains(SqlValue::Text(self.root_dir->0)),
            self.tls_cert is Some ==> present_names(self.insert_columns()).contains("tls_cert"@) && present_values(self.insert_fields()).contains(SqlValue::Text(self.tls_cert->0)),
            self.tls_cert_start_date is Some ==> present_names(self.insert_columns()).contains("tls_cert_start_date"@) && present_values(self.insert_fields()).contains(SqlValue::Time(self.tls_cert_start_date->0)),
            self.tls_cert_end_date is Some ==> present_names(self.insert_columns()).contains("tls_cert_end_date"@) && present_values(self.insert_fields()).contains(SqlValue::Time(self.tls_cert_end_date->0)),
            self.tls_private_key is Some ==> present_names(self.insert_columns()).contains("tls_private_key"@) && present_values(self.insert_fields()).contains(SqlValue::Text(self.tls_private_key->0)),
            self.rate_limit is Some ==> present_names(self.insert_columns()).contains("rate_limit"@) && present_values(self.insert_fields()).contains(SqlValue::I64(self.rate_limit->0)),
            self.rate_limit_unit is Some ==> present_names(self.insert_columns()).contains("rate_limit_unit"@) && present_values(self.insert_fields()).contains(SqlValue::I64(self.rate_limit_unit->0)),
            self.gmt_create is Some ==> present_names(self.insert_columns()).contains("gmt_create"@) && present_values(self.insert_fields()).contains(SqlValue::Time(self.gmt_create->0)),
            self.gmt_modified is Some ==> present_names(self.insert_columns()).contains("gmt_modified"@) && present_values(self.insert_fields()).contains(SqlValue::Time(self.gmt_modified->0)),
            present_names(self.insert_columns()).contains("auto_index"@) && present_values(self.insert_fields()).contains(SqlValue::Bool(self.auto_index)),
            present_names(self.insert_columns()).contains("tls_on"@) && present_values(self.insert_fields()).contains(SqlValue::Bool(self.tls_on)),
            present_names(self.insert_columns()).contains("tls_enforce"@) && present_values(self.insert_fields()).contains(SqlValue::Bool(self.tls_enforce)),
            present_names(self.insert_columns()).contains("acme_on"@) && present_values(self.insert_fields()).contains(SqlValue::Bool(self.acme_on)),
    {
        self.lemma_insert_writes_id();
        self.lemma_insert_writes_cluster_name();
        self.lemma_insert_writes_name();
        self.lemma_insert_writes_alt_names();
        self.lemma_insert_writes_root_dir();
        self.lemma_insert_writes_tls_cert();
        self.lemma_insert_writes_tls_cert_start_date();
        self.lemma_insert_writes_tls_cert_end_date();
        self.lemma_insert_writes_tls_private_key();
        self.lemma_insert_writes_rate_limit();
        self.lemma_insert_writes_rate_limit_unit();
        self.lemma_insert_writes_gmt_create();
        self.lemma_insert_writes_gmt_modified();
        self.lemma_insert_writes_auto_index();
        self.lemma_insert_writes_tls_on();
        self.lemma_insert_writes_tls_enforce();
        self.lemma_insert_writes_acme_on();
    }

    proof fn lemma_insert_writes_id(self)
        ensures
            self.id is Some ==> present_names(self.insert_columns()).contains("id"@) && present_values(self.insert_fields()).contains(SqlValue::I64(self.id->0)),
    {
        lemma_named_when_present(self.insert_columns(), 0);
        lemma_bound_when_present(self.insert_fields(), 0);
    }

    proof fn lemma_insert_writes_cluster_name(self)
        ensures
            self.cluster_name is Some ==> present_names(self.insert_columns()).contains("cluster_name"@) && present_values(self.insert_fields()).contains(SqlValue::Text(self.cluster_name->0)),
    {
        lemma_named_when_present(self.insert_columns(), 1);
        lemma_bound_when_present(self.insert_fields(), 1);
    }

    proof fn lemma_insert_writes_name(self)
        ensures
            self.name is Some ==> present_names(self.insert_columns()).contains("name"@) && present_values(self.insert_fields()).contains(SqlValue::Text(self.name->0)),
    {
        lemma_named_when_present(self.insert_columns(), 2);
        lemma_bound_when_present(self.insert_fields(), 2);
    }

    proof fn lemma_insert_writes_alt_names(self)
        ensures
            self.alt_names is Some ==> present_names(self.insert_columns()).contains("alt_names"@) && present_values(self.insert_fields()).contains(SqlValue::Text(self.alt_names->0)),
    {
        lemma_named_when_present(self.insert_columns(), 3);
        lemma_bound_when_present(self.insert_fields(), 3);
    }

    proof fn lemma_insert_writes_root_dir(self)
        ensures
            self.root_dir is Some ==> present_names(self.insert_columns()).contains("root_dir"@) && present_values(self.insert_fields()).contains(SqlValue::Text(self.root_dir->0)),
    {
        lemma_named_when_present(self.insert_columns(), 4);
        lemma_bound_when_present(self.insert_fields(), 4);
    }

    proof fn lemma_insert_writes_tls_cert(self)
        ensures
            self.tls_cert is Some ==> present_names(self.insert_columns()).contains("tls_cert"@) && present_values(self.insert_fields()).contains(SqlValue::Text(self.tls_cert->0)),
    {
        lemma_named_when_present(self.insert_columns(), 5);
        lemma_bound_when_present(self.insert_fields(), 5);
    }

    proof fn lemma_insert_writes_tls_cert_start_date(self)
        ensures
            self.tls_cert_start_date is Some ==> present_names(self.insert_columns()).contains("tls_cert_start_date"@) && present_values(self.insert_fields()).contains(SqlValue::Time(self.tls_cert_start_date->0)),
    {
        lemma_named_when_present(self.insert_columns(), 6);
        lemma_bound_when_present(self.insert_fields(), 6);
    }

    proof fn lemma_insert_writes_tls_cert_end_date(self)
        ensures
            self.tls_cert_end_date is Some ==> present_names(self.insert_columns()).contains("tls_cert_end_date"@) && present_values(self.insert_fields()).contains(SqlValue::Time(self.tls_cert_end_date->0)),
    {
        lemma_named_when_present(self.insert_columns(), 7);
        lemma_bound_when_present(self.insert_fields(), 7);
    }

    proof fn lemma_insert_writes_tls_private_key(self)
        ensures
            self.tls_private_key is Some ==> present_names(self.insert_columns()).contains("tls_private_key"@) && present_values(self.insert_fields()).contains(SqlValue::Text(self.tls_private_key->0)),
    {
        lemma_named_when_present(self.insert_columns(), 8);
        lemma_bound_when_present(self.insert_fields(), 8);
    }

    proof fn lemma_insert_writes_rate_limit(self)
        ensures
            self.rate_limit is Some ==> present_names(self.insert_columns()).contains("rate_limit"@) && present_values(self.insert_fields()).contains(SqlValue::I64(self.rate_limit->0)),
    {
        lemma_named_when_present(self.insert_columns(), 9);
        lemma_bound_when_present(self.insert_fields(), 9);
    }

    proof fn lemma_insert_writes_rate_limit_unit(self)
        ensures
            self.rate_limit_unit is Some ==> present_names(self.insert_columns()).contains("rate_limit_unit"@) && present_values(self.insert_fields()).contains(SqlValue::I64(self.rate_limit_unit->0)),
    {
        lemma_named_when_present(self.insert_columns(), 10);
        lemma_bound_when_present(self.insert_fields(), 10);
    }

    proof fn lemma_insert_writes_gmt_create(self)
        ensures
            self.gmt_create is Some ==> present_names(self.insert_columns()).contains("gmt_create"@) && present_values(self.insert_fields()).contains(SqlValue::Time(self.gmt_create->0)),
    {
        lemma_named_when_present(self.insert_columns(), 11);
        lemma_bound_when_present(self.insert_fields(), 11);
    }

    proof fn lemma_insert_writes_gmt_modified(self)
        ensures
            self.gmt_modified is Some ==> present_names(self.insert_columns()).contains("gmt_modified"@) && present_values(self.insert_fields()).contains(SqlValue::Time(self.gmt_modified->0)),
    {
        lemma_named_when_present(self.insert_columns(), 12);
        lemma_bound_when_present(self.insert_fields(), 12);
    }

    proof fn lemma_insert_writes_auto_index(self)
        ensures
            present_names(self.insert_columns()).contains("auto_index"@) && present_values(self.insert_fields()).contains(SqlValue::Bool(self.auto_index)),
    {
        lemma_named_when_present(self.insert_columns(), 13);
        lemma_bound_when_present(self.insert_fields(), 13);
    }

    proof fn lemma_insert_writes_tls_on(self)
        ensures
            present_names(self.insert_columns()).contains("tls_on"@) && present_values(self.insert_fields()).contains(SqlValue::Bool(self.tls_on)),
    {
        lemma_named_when_present(self.insert_columns(), 14);
        lemma_bound_when_present(self.insert_fields(), 14);
    }

    proof fn lemma_insert_writes_tls_enforce(self)
        ensures
            present_names(self.insert_columns()).contains("tls_enforce"@) && present_values(self.insert_fields()).contains(SqlValue::Bool(self.tls_enforce)),
    {
        lemma_named_when_present(self.insert_columns(), 15);
        lemma_bound_when_present(self.insert_fields(), 15);
    }

    proof fn lemma_insert_writes_acme_on(self)
        ensures
            present_names(self.insert_columns()).contains("acme_on"@) && present_values(self.insert_fields()).contains(SqlValue::Bool(self.acme_on)),
    {
        lemma_named_when_present(self.insert_columns(), 16);
        lemma_bound_when_present(self.insert_fields(), 16);
    }

    /// The `update_by_name` statement names every column whose value is present, and binds that value.
    pub proof fn lemma_update_by_name_writes_present_columns(self)
        ensures
            self.cluster_name is Some ==> present_names(self.update_by_name_columns()).contains("cluster_name"@) && present_values(self.update_by_name_fields()).contains(SqlValue::Text(self.cluster_name->0)),
            self.name is Some ==> present_names(self.update_by_name_columns()).contains("name"@) && present_values(self.update_by_name_fields()).contains(SqlValue::Text(self.name->0)),
            self.alt_names is Some ==> present_names(self.update_by_name_columns()).contains("alt_names"@) && present_values(self.update_by_name_fields()).contains(SqlValue::Text(self.alt_names->0)),
            self.root_dir is Some ==> present_names(self.update_by_name_columns()).contains("root_dir"@) && present_values(self.update_by_name_fields()).contains(SqlValue::Text(self.root_dir->0)),
            self.tls_cert is Some ==> present_names(self.update_by_name_columns()).contains("tls_cert"@) && present_values(self.update_by_name_fields()).contains(SqlValue::Text(self.tls_cert->0)),
            self.tls_cert_start_date is Some ==> present_names(self.update_by_name_columns()).contains("tls_cert_start_date"@) && present_values(self.update_by_name_fields()).contains(SqlValue::Time(self.tls_cert_start_date->0)),
            self.tls_cert_end_date is Some ==> present_names(self.update_by_name_columns()).contains("tls_cert_end_date"@) && present_values(self.update_by_name_fields()).contains(SqlValue::Time(self.tls_cert_end_date->0)),
            self.tls_private_key is Some ==> present_names(self.update_by_name_columns()).contains("tls_private_key"@) && present_values(self.update_by_name_fields()).contains(SqlValue::Text(self.tls_private_key->0)),
            self.rate_limit is Some ==> present_names(self.update_by_name_columns()).contains("rate_limit"@) && present_values(self.update_by_name_fields()).contains(SqlValue::I64(self.rate_limit->0)),
            self.rate_limit_unit is Some ==> present_names(self.update_by_name_columns()).contains("rate_limit_unit"@) && present_values(self.update_by_name_fields()).contains(SqlValue::I64(self.rate_limit_unit->0)),
            self.gmt_create is Some ==> present_names(self.update_by_name_columns()).contains("gmt_create"@) && present_values(self.update_by_name_fields()).contains(SqlValue::Time(self.gmt_create->0)),
            self.gmt_modified is Some ==> present_names(self.update_by_name_columns()).contains("gmt_modified"@) && present_values(self.update_by_name_fields()).contains(SqlValue::Time(self.gmt_modified->0)),
            present_names(self.update_by_name_columns()).contains("auto_index"@) && present_values(self.update_by_name_fields()).contains(SqlValue::Bool(self.auto_index)),
            present_names(self.update_by_name_columns()).contains("tls_on"@) && present_values(self.update_by_name_fields()).contains(SqlValue::Bool(self.tls_on)),
            present_names(self.update_by_name_columns()).contains("tls_enforce"@) && present_values(self.update_by_name_fields()).contains(SqlValue::Bool(self.tls_enforce)),
            present_names(self.update_by_name_columns()).contains("acme_on"@) && present_values(self.update_by_name_fields()).contains(SqlValue::Bool(self.acme_on)),
    {
        self.lemma_update_by_name_writes_cluster_name();
        self.lemma_update_by_name_writes_name();
        self.lemma_update_by_name_writes_alt_names();
        self.lemma_update_by_name_writes_root_dir();
        self.lemma_update_by_name_writes_tls_cert();
        self.lemma_update_by_name_writes_tls_cert_start_date();
        self.lemma_update_by_name_writes_tls_cert_end_date();
        self.lemma_update_by_name_writes_tls_private_key();
        self.lemma_update_by_name_writes_rate_limit();
        self.lemma_update_by_name_writes_rate_limit_unit();
        self.lemma_update_by_name_writes_gmt_create();
        self.lemma_update_by_name_writes_gmt_modified();
        self.lemma_update_by_name_writes_auto_index();
        self.lemma_update_by_name_writes_tls_on();
        self.lemma_update_by_name_writes_tls_enforce();
        self.lemma_update_by_name_writes_acme_on();
    }

    proof fn lemma_update_by_name_writes_cluster_name(self)
        ensures
            self.cluster_name is Some ==> present_names(self.update_by_name_columns()).contains("cluster_name"@) && present_values(self.update_by_name_fields()).contains(SqlValue::Text(self.cluster_name->0)),
    {
        lemma_named_when_present(self.update_by_name_columns(), 0);
        lemma_bound_when_present(self.update_by_name_fields(), 0);
    }

    proof fn lemma_update_by_name_writes_name(self)
        ensures
            self.name is Some ==> present_names(self.update_by_name_columns()).contains("name"@) && present_values(self.update_by_name_fields()).contains(SqlValue::Text(self.name->0)),
    {
        lemma_named_when_present(self.update_by_name_columns(), 1);
        lemma_bound_when_present(self.update_by_name_fields(), 1);
    }

    proof fn lemma_update_by_name_writes_alt_names(self)
        ensures
            self.alt_names is Some ==> present_names(self.update_by_name_columns()).contains("alt_names"@) && present_values(self.update_by_name_fields()).contains(SqlValue::Text(self.alt_names->0)),
    {
        lemma_named_when_present(self.update_by_name_columns(), 2);
        lemma_bound_when_present(self.update_by_name_fields(), 2);
    }

    proof fn lemma_update_by_name_writes_root_dir(self)
        ensures
            self.root_dir is Some ==> present_names(self.update_by_name_columns()).contains("root_dir"@) && present_values(self.update_by_name_fields()).contains(SqlValue::Text(self.root_dir->0)),
    {
        lemma_named_when_present(self.update_by_name_columns(), 3);
        lemma_bound_when_present(self.update_by_name_fields(), 3);
    }

    proof fn lemma_update_by_name_writes_tls_cert(self)
        ensures
            self.tls_cert is Some ==> present_names(self.update_by_name_columns()).contains("tls_cert"@) && present_values(self.update_by_name_fields()).contains(SqlValue::Text(self.tls_cert->0)),
    {
        lemma_named_when_present(self.update_by_name_columns(), 4);
        lemma_bound_when_present(self.update_by_name_fields(), 4);
    }

    proof fn lemma_update_by_name_writes_tls_cert_start_date(self)
        ensures
            self.tls_cert_start_date is Some ==> present_names(self.update_by_name_columns()).contains("tls_cert_start_date"@) && present_values(self.update_by_name_fields()).contains(SqlValue::Time(self.tls_cert_start_date->0)),
    {
        lemma_named_when_present(self.update_by_name_columns(), 5);
        lemma_bound_when_present(self.update_by_name_fields(), 5);
    }

    proof fn lemma_update_by_name_writes_tls_cert_end_date(self)
        ensures
            self.tls_cert_end_date is Some ==> present_names(self.update_by_name_columns()).contains("tls_cert_end_date"@) && present_values(self.update_by_name_fields()).contains(SqlValue::Time(self.tls_cert_end_date->0)),
    {
        lemma_named_when_present(self.update_by_name_columns(), 6);
        lemma_bound_when_present(self.update_by_name_fields(), 6);
    }

    proof fn lemma_update_by_name_writes_tls_private_key(self)
        ensures
            self.tls_private_key is Some ==> present_names(self.update_by_name_columns()).contains("tls_private_key"@) && present_values(self.update_by_name_fields()).contains(SqlValue::Text(self.tls_private_key->0)),
    {
        lemma_named_when_present(self.update_by_name_columns(), 7);
        lemma_bound_when_present(self.update_by_name_fields(), 7);
    }

    proof fn lemma_update_by_name_writes_rate_limit(self)
        ensures
            self.rate_limit is Some ==> present_names(self.update_by_name_columns()).contains("rate_limit"@) && present_values(self.update_by_name_fields()).contains(SqlValue::I64(self.rate_limit->0)),
    {
        lemma_named_when_present(self.update_by_name_columns(), 8);
        lemma_bound_when_present(self.update_by_name_fields(), 8);
    }

    proof fn lemma_update_by_name_writes_rate_limit_unit(self)
        ensures
            self.rate_limit_unit is Some ==> present_names(self.update_by_name_columns()).contains("rate_limit_unit"@) && present_values(self.update_by_name_fields()).contains(SqlValue::I64(self.rate_limit_unit->0)),
    {
        lemma_named_when_present(self.update_by_name_columns(), 9);
        lemma_bound_when_present(self.update_by_name_fields(), 9);
    }

    proof fn lemma_update_by_name_writes_gmt_create(self)
        ensures
            self.gmt_create is Some ==> present_names(self.update_by_name_columns()).contains("gmt_create"@) && present_values(self.update_by_name_fields()).contains(SqlValue::Time(self.gmt_create->0)),
    {
        lemma_named_when_present(self.update_by_name_columns(), 10);
        lemma_bound_when_present(self.update_by_name_fields(), 10);
    }

    proof fn lemma_update_by_name_writes_gmt_modified(self)
        ensures
            self.gmt_modified is Some ==> present_names(self.update_by_name_columns()).contains("gmt_modified"@) && present_values(self.update_by_name_fields()).contains(SqlValue::Time(self.gmt_modified->0)),
    {
        lemma_named_when_present(self.update_by_name_columns(), 11);
        lemma_bound_when_present(self.update_by_name_fields(), 11);
    }

    proof fn lemma_update_by_name_writes_auto_index(self)
        ensures
            present_names(self.update_by_name_columns()).contains("auto_index"@) && present_values(self.update_by_name_fields()).contains(SqlValue::Bool(self.auto_index)),
    {
        lemma_named_when_present(self.update_by_name_columns(), 12);
        lemma_bound_when_present(self.update_by_name_fields(), 12);
    }

    proof fn lemma_update_by_name_writes_tls_on(self)
        ensures
            present_names(self.update_by_name_columns()).contains("tls_on"@) && present_values(self.update_by_name_fields()).contains(SqlValue::Bool(self.tls_on)),
    {
        lemma_named_when_present(self.update_by_name_columns(), 13);
        lemma_bound_when_present(self.update_by_name_fields(), 13);
    }

    proof fn lemma_update_by_name_writes_tls_enforce(self)
        ensures
            present_names(self.update_by_name_columns()).contains("tls_enforce"@) && present_values(self.update_by_name_fields()).contains(SqlValue::Bool(self.tls_enforce)),
    {
        lemma_named_when_present(self.update_by_name_columns(), 14);
        lemma_bound_when_present(self.update_by_name_fields(), 14);
    }

    proof fn lemma_update_by_name_writes_acme_on(self)
        ensures
            present_names(self.update_by_name_columns()).contains("acme_on"@) && present_values(self.update_by_name_fields()).contains(SqlValue::Bool(self.acme_on)),
    {
        lemma_named_when_present(self.update_by_name_columns(), 15);
        lemma_bound_when_present(self.update_by_name_fields(), 15);
    }

}

impl TbTask {
    /// Storing the row names every column whose value is present, and binds that value.
    pub proof fn lemma_insert_writes_present_columns(self)
        ensures
            self.id is Some ==> present_names(self.insert_columns()).contains("id"@) && present_values(self.insert_fields()).contains(SqlValue::I64(self.id->0)),
            self.name is Some ==> present_names(self.insert_columns()).contains("name"@) && present_values(self.insert_fields()).contains(SqlValue::Text(self.name->0)),
            self.task_type is Some ==> present_names(self.insert_columns()).contains("type"@) && present_values(self.insert_fields()).contains(SqlValue::I32(self.task_type->0)),
            self.last_time is Some ==> present_names(self.insert_columns()).contains("last_time"@) && present_values(self.insert_fields()).contains(SqlValue::Time(self.last_time->0)),
            self.gmt_create is Some ==> present_names(self.insert_columns()).contains("gmt_create"@) && present_values(self.insert_fields()).contains(SqlValue::Time(self.gmt_create->0)),
            self.gmt_modified is Some ==> present_names(self.insert_columns()).contains("gmt_modified"@) && present_values(self.insert_fields()).contains(SqlValue::Time(self.gmt_modified->0)),
    {
        assert(self.id is Some ==> present_names(self.insert_columns()).contains("id"@) && present_values(self.insert_fields()).contains(SqlValue::I64(self.id->0))) by {
            lemma_named_when_present(self.insert_columns(), 0);
            lemma_bound_when_present(self.insert_fields(), 0);
        }
        assert(self.name is Some ==> present_names(self.insert_columns()).contains("name"@) && present_values(self.insert_fields()).contains(SqlValue::Text(self.name->0))) by {
            lemma_named_when_present(self.insert_columns(), 1);
            lemma_bound_when_present(self.insert_fields(), 1);
        }
        assert(self.task_type is Some ==> present_names(self.insert_columns()).contains("type"@) && present_values(self.insert_fields()).contains(SqlValue::I32(self.task_type->0))) by {
            lemma_named_when_present(self.insert_columns(), 2);
            lemma_bound_when_present(self.insert_fields(), 2);
        }
        assert(self.last_time is Some ==> present_names(self.insert_columns()).contains("last_time"@) && present_values(self.insert_fields()).contains(SqlValue::Time(self.last_time->0))) by {
            lemma_named_when_present(self.insert_columns(), 3);
            lemma_bound_when_present(self.insert_fields(), 3);
        }
        assert(self.gmt_create is Some ==> present_names(self.insert_columns()).contains("gmt_create"@) && present_values(self.insert_fields()).contains(SqlValue::Time(self.gmt_create->0))) by {
            lemma_named_when_present(self.insert_columns(), 4);
            lemma_bound_when_present(self.insert_fields(), 4);
        }
        assert(self.gmt_modified is Some ==> present_names(self.insert_columns()).contains("gmt_modified"@) && present_values(self.insert_fields()).contains(SqlValue::Time(self.gmt_modified->0))) by {
            lemma_named_when_present(self.insert_columns(), 5);
            lemma_bound_when_present(self.insert_fields(), 5);
        }
    }

    /// The `update_by_name_and_type` statement names every column whose value is present, and binds that value.
    pub proof fn lemma_update_by_name_and_type_writes_present_columns(self)
        ensures
            self.name is Some ==> present_names(self.update_by_name_and_type_columns()).contains("name"@) && present_values(self.update_by_name_and_type_fields()).contains(SqlValue::Text(self.name->0)),
            self.task_type is Some ==> present_names(self.update_by_name_and_type_columns()).contains("type"@) && present_values(self.update_by_name_and_type_fields()).contains(SqlValue::I32(self.task_type->0)),
            self.last_time is Some ==> present_names(self.update_by_name_and_type_columns()).contains("last_time"@) && present_values(self.update_by_name_and_type_fields()).contains(SqlValue::Time(self.last_time->0)),
            self.gmt_create is Some ==> present_names(self.update_by_name_and_type_columns()).contains("gmt_create"@) && present_values(self.update_by_name_and_type_fields()).contains(SqlValue::Time(self.gmt_create->0)),
            self.gmt_modified is Some ==> present_names(self.update_by_name_and_type_columns()).contains("gmt_modified"@) && present_values(self.update_by_name_and_type_fields()).contains(SqlValue::Time(self.gmt_modified->0)),
    {
        assert(self.name is Some ==> present_names(self.update_by_name_and_type_columns()).contains("name"@) && present_values(self.update_by_name_and_type_fields()).contains(SqlValue::Text(self.name->0))) by {
            lemma_named_when_present(self.update_by_name_and_type_columns(), 0);
            lemma_bound_when_present(self.update_by_name_and_type_fields(), 0);
        }
        assert(self.task_type is Some ==> present_names(self.update_by_name_and_type_columns()).contains("type"@) && present_values(self.update_by_name_and_type_fields()).contains(SqlValue::I32(self.task_type->0))) by {
            lemma_named_when_present(self.update_by_name_and_type_columns(), 1);
            lemma_bound_when_present(self.update_by_name_and_type_fields(), 1);
        }
        assert(self.last_time is Some ==> present_names(self.update_by_name_and_type_columns()).contains("last_time"@) && present_values(self.update_by_name_and_type_fields()).contains(SqlValue::Time(self.last_time->0))) by {
            lemma_named_when_present(self.update_by_name_and_type_columns(), 2);
            lemma_bound_when_present(self.update_by_name_and_type_fields(), 2);
        }
        assert(self.gmt_create is Some ==> present_names(self.update_by_name_and_type_columns()).contains("gmt_create"@) && present_values(self.update_by_name_and_type_fields()).contains(SqlValue::Time(self.gmt_create->0))) by {
            lemma_named_when_present(self.update_by_name_and_type_columns(), 3);
            lemma_bound_when_present(self.update_by_name_and_type_fields(), 3);
        }
        assert(self.gmt_modified is Some ==> present_names(self.update_by_name_and_type_columns()).contains("gmt_modified"@) && present_values(self.update_by_name_and_type_fields()).contains(SqlValue::Time(self.gmt_modified->0))) by {
            lemma_named_when_present(self.update_by_name_and_type_columns(), 4);
            lemma_bound_when_present(self.update_by_name_and_type_fields(), 4);
        }
    }

}

impl TbUser {
    /// Storing the row names every column whose value is present, and binds that value.
    pub proof fn lemma_insert_writes_present_columns(self)
        ensures
            self.id is Some ==> present_names(self.insert_columns()).contains("id"@) && present_values(self.insert_fields()).contains(SqlValue::I64(self.id->0)),
            self.name is Some ==> present_names(self.insert_columns()).contains("name"@) && present_values(self.insert_fields()).contains(SqlValue::Text(self.name->0)),
            self.email is Some ==> present_names(self.insert_columns()).contains("email"@) && present_values(self.insert_fields()).contains(SqlValue::Text(self.email->0)),
            self.password is Some ==> present_names(self.insert_columns()).contains("password"@) && present_values(self.insert_fields()).contains(SqlValue::Text(self.password->0)),
            self.real_name is Some ==> present_names(self.insert_columns()).contains("real_name"@) && present_values(self.insert_fields()).contains(SqlValue::Text(self.real_name->0)),
            self.ext_info is Some ==> present_names(self.insert_columns()).contains("ext_info"@) && present_values(self.insert_fields()).contains(SqlValue::Text(self.ext_info->0)),
            self.gmt_create is Some ==> present_names(self.insert_columns()).contains("gmt_create"@) && present_values(self.insert_fields()).contains(SqlValue::Time(self.gmt_create->0)),
            self.gmt_modified is Some ==> present_names(self.insert_columns()).contains("gmt_modified"@) && present_values(self.insert_fields()).contains(SqlValue::Time(self.gmt_modified->0)),
    {
        assert(self.id is Some ==> present_names(self.insert_columns()).contains("id"@) && present_values(self.insert_fields()).contains(SqlValue::I64(self.id->0))) by {
            lemma_named_when_present(self.insert_columns(), 0);
            lemma_bound_when_present(self.insert_fields(), 0);
        }
        assert(self.name is Some ==> present_names(self.insert_columns()).contains("name"@) && present_values(self.insert_fields()).contains(SqlValue::Text(self.name->0))) by {
            lemma_named_when_present(self.insert_columns(), 1);
            lemma_bound_when_present(self.insert_fields(), 1);
        }
        assert(self.email is Some ==> present_names(self.insert_columns()).contains("email"@) && present_values(self.insert_fields()).contains(SqlValue::Text(self.email->0))) by {
            lemma_named_when_present(self.insert_columns(), 2);
            lemma_bound_when_present(self.insert_fields(), 2);
        }
        assert(self.password is Some ==> present_names(self.insert_columns()).contains("password"@) && present_values(self.insert_fields()).contains(SqlValue::Text(self.password->0))) by {
            lemma_named_when_present(self.insert_columns(), 3);
            lemma_bound_when_present(self.insert_fields(), 3);
        }
        assert(self.real_name is Some ==> present_names(self.insert_columns()).contains("real_name"@) && present_values(self.insert_fields()).contains(SqlValue::Text(self.real_name->0))) by {
            lemma_named_when_present(self.insert_columns(), 4);
            lemma_bound_when_present(self.insert_fields(), 4);
        }
        assert(self.ext_info is Some ==> present_names(self.insert_columns()).contains("ext_info"@) && present_values(self.insert_fields()).contains(SqlValue::Text(self.ext_info->0))) by {
            lemma_named_when_present(self.insert_columns(), 5);
            lemma_bound_when_present(self.insert_fields(), 5);
        }
        assert(self.gmt_create is Some ==> present_names(self.insert_columns()).contains("gmt_create"@) && present_values(self.insert_fields()).contains(SqlValue::Time(self.gmt_create->0))) by {
            lemma_named_when_present(self.insert_columns(), 6);
            lemma_bound_when_present(self.insert_fields(), 6);
        }
        assert(self.gmt_modified is Some ==> present_names(self.insert_columns()).contains("gmt_modified"@) && present_values(self.insert_fields()).contains(SqlValue::Time(self.gmt_modified->0))) by {
            lemma_named_when_present(self.insert_columns(), 7);
            lemma_bound_when_present(self.insert_fields(), 7);
        }
    }

    /// The `update_by_name` statement names every column whose value is present, and binds that value.
    pub proof fn lemma_update_by_name_writes_present_columns(self)
        ensures
            self.name is Some ==> present_names(self.update_by_name_columns()).contains("name"@) && present_values(self.update_by_name_fields()).contains(SqlValue::Text(self.name->0)),
            self.email is Some ==> present_names(self.update_by_name_columns()).contains("email"@) && present_values(self.update_by_name_fields()).contains(SqlValue::Text(self.email->0)),
            self.password is Some ==> present_names(self.update_by_name_columns()).contains("password"@) && present_values(self.update_by_name_fields()).contains(SqlValue::Text(self.password->0)),
            self.real_name is Some ==> present_names(self.update_by_name_columns()).contains("real_name"@) && present_values(self.update_by_name_fields()).contains(SqlValue::Text(self.real_name->0)),
            self.ext_info is Some ==> present_names(self.update_by_name_columns()).contains("ext_info"@) && present_values(self.update_by_name_fields()).contains(SqlValue::Text(self.ext_info->0)),
            self.gmt_create is Some ==> present_names(self.update_by_name_columns()).contains("gmt_create"@) && present_values(self.update_by_name_fields()).contains(SqlValue::Time(self.gmt_create->0)),
            self.gmt_modified is Some ==> present_names(self.update_by_name_columns()).contains("gmt_modified"@) && present_values(self.update_by_name_fields()).contains(SqlValue::Time(self.gmt_modified->0)),
    {
        assert(self.name is Some ==> present_names(self.update_by_name_columns()).contains("name"@) && present_values(self.update_by_name_fields()).contains(SqlValue::Text(self.name->0))) by {
            lemma_named_when_present(self.update_by_name_columns(), 0);
            lemma_bound_when_present(self.update_by_name_fields(), 0);
        }
        assert(self.email is Some ==> present_names(self.update_by_name_columns()).contains("email"@) && present_values(self.update_by_name_fields()).contains(SqlValue::Text(self.email->0))) by {
            lemma_named_when_present(self.update_by_name_columns(), 1);
            lemma_bound_when_present(self.update_by_name_fields(), 1);
        }
        assert(self.password is Some ==> present_names(self.update_by_name_columns()).contains("password"@) && present_values(self.update_by_name_fields()).contains(SqlValue::Text(self.password->0))) by {
            lemma_named_when_present(self.update_by_name_columns(), 2);
            lemma_bound_when_present(self.update_by_name_fields(), 2);
        }
        assert(self.real_name is Some ==> present_names(self.update_by_name_columns()).contains("real_name"@) && present_values(self.update_by_name_fields()).contains(SqlValue::Text(self.real_name->0))) by {
            lemma_named_when_present(self.update_by_name_columns(), 3);
            lemma_bound_when_present(self.update_by_name_fields(), 3);
        }
        assert(self.ext_info is Some ==> present_names(self.update_by_name_columns()).contains("ext_info"@) && present_values(self.update_by_name_fields()).contains(SqlValue::Text(self.ext_info->0))) by {
            lemma_named_when_present(self.update_by_name_columns(), 4);
            lemma_bound_when_present(self.update_by_name_fields(), 4);
        }
        assert(self.gmt_create is Some ==> present_names(self.update_by_name_columns()).contains("gmt_create"@) && present_values(self.update_by_name_fields()).contains(SqlValue::Time(self.gmt_create->0))) by {
            lemma_named_when_present(self.update_by_name_columns(), 5);
            lemma_bound_when_present(self.update_by_name_fields(), 5);
        }
        assert(self.gmt_modified is Some ==> present_names(self.update_by_name_columns()).contains("gmt_modified"@) && present_values(self.update_by_name_fields()).contains(SqlValue::Time(self.gmt_modified->0))) by {
            lemma_named_when_present(self.update_by_name_columns(), 6);
            lemma_bound_when_present(self.update_by_name_fields(), 6);
        }
    }

    /// The `update_by_email` statement names every column whose value is present, and binds that value.
    pub proof fn lemma_update_by_email_writes_present_columns(self)
        ensures
            self.name is Some ==> present_names(self.update_by_email_columns()).contains("name"@) && present_values(self.update_by_email_fields()).contains(SqlValue::Text(self.name->0)),
            self.email is Some ==> present_names(self.update_by_email_columns()).contains("email"@) && present_values(self.update_by_email_fields()).contains(SqlValue::Text(self.email->0)),
            self.password is Some ==> present_names(self.update_by_email_columns()).contains("password"@) && present_values(self.update_by_email_fields()).contains(SqlValue::Text(self.password->0)),
            self.real_name is Some ==> present_names(self.update_by_email_columns()).contains("real_name"@) && present_values(self.update_by_email_fields()).contains(SqlValue::Text(self.real_name->0)),
            self.ext_info is Some ==> present_names(self.update_by_email_columns()).contains("ext_info"@) && present_values(self.update_by_email_fields()).contains(SqlValue::Text(self.ext_info->0)),
            self.gmt_create is Some ==> present_names(self.update_by_email_columns()).contains("gmt_create"@) && present_values(self.update_by_email_fields()).contains(SqlValue::Time(self.gmt_create->0)),
            self.gmt_modified is Some ==> present_names(self.update_by_email_columns()).contains("gmt_modified"@) && present_values(self.update_by_email_fields()).contains(SqlValue::Time(self.gmt_modified->0)),
    {
        assert(self.name is Some ==> present_names(self.update_by_email_columns()).contains("name"@) && present_values(self.update_by_email_fields()).contains(SqlValue::Text(self.name->0))) by {
            lemma_named_when_present(self.update_by_email_columns(), 0);
            lemma_bound_when_present(self.update_by_email_fields(), 0);
        }
        assert(self.email is Some ==> present_names(self.update_by_email_columns()).contains("email"@) && present_values(self.update_by_email_fields()).contains(SqlValue::Text(self.email->0))) by {
            lemma_named_when_present(self.update_by_email_columns(), 1);
            lemma_bound_when_present(self.update_by_email_fields(), 1);
        }
        assert(self.password is Some ==> present_names(self.update_by_email_columns()).contains("password"@) && present_values(self.update_by_email_fields()).contains(SqlValue::Text(self.password->0))) by {
            lemma_named_when_present(self.update_by_email_columns(), 2);
            lemma_bound_when_present(self.update_by_email_fields(), 2);
        }
        assert(self.real_name is Some ==> present_names(self.update_by_email_columns()).contains("real_name"@) && present_values(self.update_by_email_fields()).contains(SqlValue::Text(self.real_name->0))) by {
            lemma_named_when_present(self.update_by_email_columns(), 3);
            lemma_bound_when_present(self.update_by_email_fields(), 3);
        }
        assert(self.ext_info is Some ==> present_names(self.update_by_email_columns()).contains("ext_info"@) && present_values(self.update_by_email_fields()).contains(SqlValue::Text(self.ext_info->0))) by {
            lemma_named_when_present(self.update_by_email_columns(), 4);
            lemma_bound_when_present(self.update_by_email_fields(), 4);
        }
        assert(self.gmt_create is Some ==> present_names(self.update_by_email_columns()).contains("gmt_create"@) && present_values(self.update_by_email_fields()).contains(SqlValue::Time(self.gmt_create->0))) by {
            lemma_named_when_present(self.update_by_email_columns(), 5);
            lemma_bound_when_present(self.update_by_email_fields(), 5);
        }
        assert(self.gmt_modified is Some ==> present_names(self.update_by_email_columns()).contains("gmt_modified"@) && present_values(self.update_by_email_fields()).contains(SqlValue::Time(self.gmt_modified->0))) by {
            lemma_named_when_present(self.update_by_email_columns(), 6);
            lemma_bound_when_present(self.update_by_email_fields(), 6);
        }
    }

}

} // verus!
