//! A model of the `owners` table, and the laws of the owner lifecycle.
//!
//! The handlers decide; the database stores. What a client sees is the two
//! together, so the laws below are stated of both: of the handlers as they
//! are specified in [`crate::api`], and of a table that assigns identifiers
//! from a counter and runs each command as its statement reads. The model is
//! a description of the database that the service expects, not a part of
//! the service.

use crate::api::owner::{
    delete_owner_plan, get_owner_plan, post_owner_plan, response_to, update_credentials_plan,
    update_profile_plan, CreateOwnerView, OwnerSummaryView, UpdateCredentialsView,
    UpdateProfileView, RECORD_NOT_FOUND,
};
use crate::api::health_check::health_check_plan;
use crate::api::{empty_response, error_response, BodyView, PlanView, ResponseView};
use crate::decimal::{decimal, parse_i32};
use crate::store::{
    column_value, create_owner_statement, int_column, owner_of_row, ColumnView,
    CommandView, FetchedView, SqlValueView, EMAIL_COLUMN, ID_COLUMN, NAME_COLUMN,
    PASSWORD_COLUMN,
};
use vstd::prelude::*;

verus! {

/// What a database says when its identifier counter has passed the last
/// 32-bit integer.
pub const OUT_OF_RANGE: &'static str = "integer out of range";

/// The `owners` table: its rows by identifier, and the identifier that the
/// next insert gets.
pub struct Table {
    pub rows: Map<int, CreateOwnerView>,
    pub next_id: int,
}

/// The row that a read of the owner `id` returns.
pub open spec fn row_of(id: int, owner: CreateOwnerView) -> Seq<ColumnView> {
    seq![
        ColumnView { name: ID_COLUMN@, value: SqlValueView::Int(id) },
        ColumnView { name: NAME_COLUMN@, value: SqlValueView::Text(owner.name) },
        ColumnView { name: EMAIL_COLUMN@, value: SqlValueView::Text(owner.email) },
        ColumnView { name: PASSWORD_COLUMN@, value: SqlValueView::Text(owner.password) },
    ]
}

/// The row that an insert returns: the new identifier.
pub open spec fn id_row(id: int) -> Seq<ColumnView> {
    seq![ColumnView { name: ID_COLUMN@, value: SqlValueView::Int(id) }]
}

impl Table {
    /// Identifiers are positive 32-bit integers, and each was handed out by
    /// the counter before it reached its present value.
    pub open spec fn wf(self) -> bool {
        &&& 1 <= self.next_id <= i32::MAX + 1
        &&& forall|id: int| self.rows.contains_key(id) ==> 1 <= id < self.next_id
    }

    /// The table after `command`, and what the database hands back.
    ///
    /// A read returns the row or none. An insert takes the next identifier
    /// and returns it, and fails once the counter has left the 32-bit
    /// range. An update or a delete changes the row that matches, if any,
    /// and returns no row.
    pub open spec fn run(self, command: CommandView) -> (Table, FetchedView) {
        match command {
            CommandView::Select { id } => if self.rows.contains_key(id) {
                (self, FetchedView::Row(row_of(id, self.rows[id])))
            } else {
                (self, FetchedView::NoRow)
            },
            CommandView::Insert { owner } => if self.next_id <= i32::MAX {
                (
                    Table {
                        rows: self.rows.insert(self.next_id, owner),
                        next_id: self.next_id + 1,
                    },
                    FetchedView::Row(id_row(self.next_id)),
                )
            } else {
                (self, FetchedView::Failed(OUT_OF_RANGE@))
            },
            CommandView::UpdateProfile { profile } => if self.rows.contains_key(
                profile.owner_id,
            ) {
                let old = self.rows[profile.owner_id];
                let new = CreateOwnerView { name: profile.name, ..old };
                (
                    Table { rows: self.rows.insert(profile.owner_id, new), ..self },
                    FetchedView::NoRow,
                )
            } else {
                (self, FetchedView::NoRow)
            },
            CommandView::UpdateCredentials { credentials } => if self.rows.contains_key(
                credentials.owner_id,
            ) {
                let old = self.rows[credentials.owner_id];
                let new = CreateOwnerView {
                    email: credentials.email,
                    password: credentials.password,
                    ..old
                };
                (
                    Table { rows: self.rows.insert(credentials.owner_id, new), ..self },
                    FetchedView::NoRow,
                )
            } else {
                (self, FetchedView::NoRow)
            },
            CommandView::Delete { id } => (
                Table { rows: self.rows.remove(id), ..self },
                FetchedView::NoRow,
            ),
        }
    }
}

/// What a client sees of a plan, and the table afterwards: a reply leaves
/// the table alone; a command runs once and is answered by its outcome.
pub open spec fn serve(table: Table, plan: PlanView) -> (Table, ResponseView) {
    match plan {
        PlanView::Reply(response) => (table, response),
        PlanView::Query(command) => {
            let (after, fetched) = table.run(command);
            (after, response_to(command, fetched))
        },
    }
}

/// The response to a read of an owner that the table holds.
pub open spec fn found(id: int, owner: CreateOwnerView) -> ResponseView {
    ResponseView {
        status: 200,
        body: BodyView::Owner(OwnerSummaryView { id, name: owner.name, email: owner.email }),
    }
}

/// The response to a read of an owner that the table does not hold.
pub open spec fn not_found(id: int) -> ResponseView {
    error_response(404, RECORD_NOT_FOUND@ + decimal(id))
}

/// The four column names of the `owners` table differ from one another.
proof fn lemma_column_names_differ()
    ensures
        ID_COLUMN@ != NAME_COLUMN@,
        ID_COLUMN@ != EMAIL_COLUMN@,
        ID_COLUMN@ != PASSWORD_COLUMN@,
        NAME_COLUMN@ != EMAIL_COLUMN@,
        NAME_COLUMN@ != PASSWORD_COLUMN@,
        EMAIL_COLUMN@ != PASSWORD_COLUMN@,
{
    reveal_strlit("id");
    reveal_strlit("name");
    reveal_strlit("email");
    reveal_strlit("password");
    assert(ID_COLUMN@.len() == 2);
    assert(NAME_COLUMN@.len() == 4);
    assert(EMAIL_COLUMN@.len() == 5);
    assert(PASSWORD_COLUMN@.len() == 8);
}

/// The row of an owner reads back as that owner.
proof fn lemma_row_reads_back(id: int, owner: CreateOwnerView)
    ensures
        owner_of_row(row_of(id, owner)) matches Some(read) && read.id == id && read.name
            == owner.name && read.email == owner.email && read.password == owner.password,
        int_column(id_row(id), ID_COLUMN@) == Some(id),
{
    lemma_column_names_differ();
    let row = row_of(id, owner);
    let r1 = row.drop_first();
    let r2 = r1.drop_first();
    let r3 = r2.drop_first();
    reveal_with_fuel(column_value, 5);
    assert(column_value(row, ID_COLUMN@) == Some(SqlValueView::Int(id)));
    assert(r1[0] == row[1]);
    assert(r2[0] == row[2]);
    assert(r3[0] == row[3]);
    assert(column_value(row, NAME_COLUMN@) == Some(SqlValueView::Text(owner.name)));
    assert(column_value(row, EMAIL_COLUMN@) == Some(SqlValueView::Text(owner.email)));
    assert(column_value(row, PASSWORD_COLUMN@) == Some(SqlValueView::Text(owner.password)));
    assert(column_value(id_row(id), ID_COLUMN@) == Some(SqlValueView::Int(id)));
}

/// The liveness probe answers 200 with an empty body whatever the table
/// holds, and the table is as it was: the probe's plan holds no command.
pub proof fn law_health_check_leaves_table(table: Table)
    ensures
        serve(table, health_check_plan()) == (table, empty_response(200)),
{
}

/// Every command leaves a well-formed table well-formed.
pub proof fn law_run_keeps_table_well_formed(table: Table, command: CommandView)
    requires
        table.wf(),
    ensures
        table.run(command).0.wf(),
{
}

/// Reading an owner that the table holds answers 200 with its identifier,
/// name and email, and leaves the table as it was.
pub proof fn law_get_of_present(table: Table, segment: Seq<char>, id: int)
    requires
        parse_i32(segment) == Some(id),
        table.rows.contains_key(id),
    ensures
        serve(table, get_owner_plan(segment)) == (table, found(id, table.rows[id])),
{
    lemma_row_reads_back(id, table.rows[id]);
}

/// Reading an identifier that the table does not hold, because it was never
/// handed out or because its row was deleted, answers 404.
pub proof fn law_get_of_absent(table: Table, segment: Seq<char>, id: int)
    requires
        parse_i32(segment) == Some(id),
        !table.rows.contains_key(id),
    ensures
        serve(table, get_owner_plan(segment)) == (table, not_found(id)),
{
}

/// In a well-formed table no identifier at or past the counter, and none
/// below 1, has a row: reading one answers 404.
pub proof fn law_get_of_never_created(table: Table, segment: Seq<char>, id: int)
    requires
        table.wf(),
        parse_i32(segment) == Some(id),
        id < 1 || id >= table.next_id,
    ensures
        serve(table, get_owner_plan(segment)).1 == not_found(id),
{
}

/// Creating an owner answers 201 with a strictly positive identifier; a
/// read of that identifier then answers 200 with that identifier and the
/// name and email that were sent. The rows that were there stay as they
/// were.
///
/// The one case left out is a table whose counter has left the 32-bit
/// range: there the insert fails and the answer is 500.
pub proof fn law_create_then_get(table: Table, owner: CreateOwnerView)
    requires
        table.wf(),
        table.next_id <= i32::MAX,
    ensures
        ({
            let id = table.next_id;
            let (created, first) = serve(table, post_owner_plan(Some(owner)));
            let (after, second) = serve(created, get_owner_plan(decimal(id)));
            &&& id > 0
            &&& first == ResponseView { status: 201, body: BodyView::Created(id) }
            &&& second == found(id, owner)
            &&& created.rows[id] == owner
            &&& forall|other: int|
                other != id ==> (created.rows.contains_key(other) <==> table.rows.contains_key(
                    other,
                )) && (table.rows.contains_key(other) ==> created.rows[other]
                    == table.rows[other])
            &&& after == created
        }),
{
    let id = table.next_id;
    lemma_row_reads_back(id, owner);
    crate::decimal::lemma_parse_decimal_of_decimal(id);
    let (created, first) = serve(table, post_owner_plan(Some(owner)));
    law_get_of_present(created, decimal(id), id);
}

/// Deleting an owner answers 204, and a read of the same identifier then
/// answers 404, whether or not the table held it.
pub proof fn law_delete_then_get(table: Table, segment: Seq<char>, id: int)
    requires
        parse_i32(segment) == Some(id),
    ensures
        ({
            let (deleted, first) = serve(table, delete_owner_plan(segment));
            let (after, second) = serve(deleted, get_owner_plan(segment));
            &&& first == empty_response(204)
            &&& second == not_found(id)
            &&& !after.rows.contains_key(id)
        }),
{
}

/// Deleting is idempotent: a second delete of the same identifier answers
/// 204 again and leaves the table as the first left it.
pub proof fn law_delete_twice(table: Table, segment: Seq<char>, id: int)
    requires
        parse_i32(segment) == Some(id),
    ensures
        ({
            let (once, first) = serve(table, delete_owner_plan(segment));
            let (twice, second) = serve(once, delete_owner_plan(segment));
            &&& first == empty_response(204)
            &&& second == empty_response(204)
            &&& twice.rows =~= once.rows
            &&& twice.next_id == once.next_id
        }),
{
}

/// Two owners created one after the other get different identifiers, both
/// strictly positive, and the first keeps its row.
pub proof fn law_created_ids_differ(table: Table, first: CreateOwnerView, second: CreateOwnerView)
    requires
        table.wf(),
        table.next_id < i32::MAX,
    ensures
        ({
            let (t1, r1) = serve(table, post_owner_plan(Some(first)));
            let (t2, r2) = serve(t1, post_owner_plan(Some(second)));
            &&& r1.body matches BodyView::Created(a)
            &&& r2.body matches BodyView::Created(b)
            &&& 0 < a < b
            &&& t2.rows[a] == first
            &&& t2.rows[b] == second
        }),
{
    let (t1, r1) = serve(table, post_owner_plan(Some(first)));
    lemma_row_reads_back(table.next_id, first);
    lemma_row_reads_back(t1.next_id, second);
}

/// Renaming an owner that the table holds answers 204, and a read of it then
/// answers 200 with the new name and the email it had.
///
/// The request names the owner twice, in the path and in the body; the law
/// is stated where the two agree, since the statement goes by the body.
pub proof fn law_update_profile_then_get(
    table: Table,
    segment: Seq<char>,
    patch: UpdateProfileView,
)
    requires
        parse_i32(segment) == Some(patch.owner_id),
        table.rows.contains_key(patch.owner_id),
    ensures
        ({
            let id = patch.owner_id;
            let (renamed, first) = serve(table, update_profile_plan(segment, Some(patch)));
            let (after, second) = serve(renamed, get_owner_plan(segment));
            &&& first == empty_response(204)
            &&& second == found(
                id,
                CreateOwnerView {
                    name: patch.name,
                    email: table.rows[id].email,
                    password: table.rows[id].password,
                },
            )
            &&& renamed.rows[id].password == table.rows[id].password
        }),
{
    let id = patch.owner_id;
    let (renamed, first) = serve(table, update_profile_plan(segment, Some(patch)));
    law_get_of_present(renamed, segment, id);
}

/// New credentials for an owner that the table holds answer 204. The row
/// then has the new email and password and the name it had, and a read of
/// it answers 200 with that name and the new email.
///
/// As for a renaming, the law is stated where path and body name the same
/// owner.
pub proof fn law_update_credentials_keeps_name(
    table: Table,
    segment: Seq<char>,
    patch: UpdateCredentialsView,
)
    requires
        parse_i32(segment) == Some(patch.owner_id),
        table.rows.contains_key(patch.owner_id),
    ensures
        ({
            let id = patch.owner_id;
            let (changed, first) = serve(table, update_credentials_plan(segment, Some(patch)));
            let (after, second) = serve(changed, get_owner_plan(segment));
            let expected = CreateOwnerView {
                name: table.rows[id].name,
                email: patch.email,
                password: patch.password,
            };
            &&& first == empty_response(204)
            &&& changed.rows[id] == expected
            &&& second == found(id, expected)
        }),
{
    let id = patch.owner_id;
    let (changed, first) = serve(table, update_credentials_plan(segment, Some(patch)));
    law_get_of_present(changed, segment, id);
}

/// The identifier of the one row that a command may add, change or remove.
pub open spec fn target(table: Table, command: CommandView) -> int {
    match command {
        CommandView::Select { id } => id,
        CommandView::Insert { owner } => table.next_id,
        CommandView::UpdateProfile { profile } => profile.owner_id,
        CommandView::UpdateCredentials { credentials } => credentials.owner_id,
        CommandView::Delete { id } => id,
    }
}

/// A command touches no row but its own: every other row is there
/// afterwards if and only if it was there before, and holds what it held.
pub proof fn law_run_keeps_other_rows(table: Table, command: CommandView, other: int)
    requires
        other != target(table, command),
    ensures
        table.run(command).0.rows.contains_key(other) == table.rows.contains_key(other),
        table.rows.contains_key(other) ==> table.run(command).0.rows[other] == table.rows[other],
{
}

/// The whole life of an owner: create, read, rename, read, new credentials,
/// delete, read. Each step answers as it should, the last read answers 404,
/// and the table ends with the rows it began with.
pub proof fn law_round_trip(
    table: Table,
    owner: CreateOwnerView,
    name: Seq<char>,
    email: Seq<char>,
    password: Seq<char>,
)
    requires
        table.wf(),
        table.next_id <= i32::MAX,
    ensures
        ({
            let id = table.next_id;
            let segment = decimal(id);
            let (t1, created) = serve(table, post_owner_plan(Some(owner)));
            let (t2, first_read) = serve(t1, get_owner_plan(segment));
            let (t3, renamed) = serve(
                t2,
                update_profile_plan(segment, Some(UpdateProfileView { name, owner_id: id })),
            );
            let (t4, second_read) = serve(t3, get_owner_plan(segment));
            let (t5, changed) = serve(
                t4,
                update_credentials_plan(
                    segment,
                    Some(UpdateCredentialsView { email, password, owner_id: id }),
                ),
            );
            let (t6, deleted) = serve(t5, delete_owner_plan(segment));
            let (t7, last_read) = serve(t6, get_owner_plan(segment));
            &&& created == ResponseView { status: 201, body: BodyView::Created(id) }
            &&& first_read == found(id, owner)
            &&& renamed == empty_response(204)
            &&& second_read == found(id, CreateOwnerView { name, ..owner })
            &&& changed == empty_response(204)
            &&& deleted == empty_response(204)
            &&& last_read == not_found(id)
            &&& t7.rows =~= table.rows
        }),
{
    let id = table.next_id;
    let segment = decimal(id);
    crate::decimal::lemma_parse_decimal_of_decimal(id);
    law_create_then_get(table, owner);
    let (t1, created) = serve(table, post_owner_plan(Some(owner)));
    let (t2, first_read) = serve(t1, get_owner_plan(segment));
    let rename = UpdateProfileView { name, owner_id: id };
    law_update_profile_then_get(t2, segment, rename);
    let (t3, renamed) = serve(t2, update_profile_plan(segment, Some(rename)));
    let (t4, second_read) = serve(t3, get_owner_plan(segment));
    let credentials = UpdateCredentialsView { email, password, owner_id: id };
    law_update_credentials_keeps_name(t4, segment, credentials);
    let (t5, changed) = serve(t4, update_credentials_plan(segment, Some(credentials)));
    law_delete_then_get(t5, segment, id);
    let (t6, deleted) = serve(t5, delete_owner_plan(segment));
    assert(!table.rows.contains_key(id));
    assert(t6.rows =~= table.rows);
}

/// The text of the insert is the same whatever the owner holds: a name is
/// bound as a value and never becomes part of the statement. The three
/// bound values are the name, the email and the password as they were sent.
pub proof fn law_insert_binds_values(first: CreateOwnerView, second: CreateOwnerView)
    ensures
        create_owner_statement(first).sql == create_owner_statement(second).sql,
        create_owner_statement(first).params == seq![
            SqlValueView::Text(first.name),
            SqlValueView::Text(first.email),
            SqlValueView::Text(first.password),
        ],
{
}

} // verus!
