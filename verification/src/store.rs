//! The owner store: one parameterized statement for each operation on the
//! `owners` table, and the reading of what the database hands back.
//!
//! Nothing here talks to a database. A caller runs the [`Statement`] and
//! reports the outcome as a [`Fetched`].

use crate::api::owner::{
    CreateOwner, CreateOwnerResponse, CreateOwnerView, Owners, OwnersView, UpdateCredentials,
    UpdateCredentialsView, UpdateProfile, UpdateProfileView,
};
use crate::decimal::digits_of;
use sea_query::{Alias, Expr, PostgresQueryBuilder, Query, Value};
use sea_query_binder::SqlxBinder;
use vstd::prelude::*;

verus! {

pub const OWNERS_TABLE: &'static str = "owners";

pub const ID_COLUMN: &'static str = "id";

pub const NAME_COLUMN: &'static str = "name";

pub const EMAIL_COLUMN: &'static str = "email";

pub const PASSWORD_COLUMN: &'static str = "password";

pub const UPDATE_PROFILE_SQL: &'static str = "UPDATE owners SET name = $1 WHERE id = $2;";

pub const UPDATE_CREDENTIALS_SQL: &'static str =
    "UPDATE owners SET email = $1, password = $2 WHERE id = $3;";

pub const DELETE_OWNER_SQL: &'static str = "delete from \"owners\" where id = $1";

/// The fixed pieces of the text of a `SELECT` and of an `INSERT`.
pub const SELECT: &'static str = "SELECT ";

pub const FROM: &'static str = " FROM ";

pub const WHERE: &'static str = " WHERE ";

pub const EQUALS: &'static str = " = ";

pub const INSERT_INTO: &'static str = "INSERT INTO ";

pub const OPEN: &'static str = " (";

pub const VALUES: &'static str = ") VALUES (";

pub const RETURNING: &'static str = ") RETURNING ";

pub const COMMA: &'static str = ", ";

/// What is said of a row that lacks a column or holds one of another type.
pub const MALFORMED_ROW: &'static str = "row does not have the expected columns";

/// What is said when a statement that must return a row returned none.
pub const MISSING_ROW: &'static str = "statement returned no row";

/// A value bound to a statement, or held by a column of a row.
#[derive(Debug, Clone, PartialEq, Eq)]
pub enum SqlValue {
    Int(i32),
    Text(String),
    /// A value of a kind that the `owners` table does not hold.
    Other,
}

/// What [`SqlValue`] is in contracts.
pub enum SqlValueView {
    Int(int),
    Text(Seq<char>),
    Other,
}

impl View for SqlValue {
    type V = SqlValueView;

    open spec fn view(&self) -> SqlValueView {
        match self {
            SqlValue::Int(v) => SqlValueView::Int(*v as int),
            SqlValue::Text(t) => SqlValueView::Text(t@),
            SqlValue::Other => SqlValueView::Other,
        }
    }
}

/// A statement and the values bound to its placeholders, in order: the
/// value at index `i` is bound to `$i+1`.
#[derive(Debug, Clone, PartialEq, Eq)]
pub struct Statement {
    pub sql: String,
    pub params: Vec<SqlValue>,
}

/// What [`Statement`] is in contracts.
pub struct StatementView {
    pub sql: Seq<char>,
    pub params: Seq<SqlValueView>,
}

impl View for Statement {
    type V = StatementView;

    open spec fn view(&self) -> StatementView {
        StatementView { sql: self.sql@, params: self.params@.map_values(|p: SqlValue| p@) }
    }
}

/// One column of a row: its name and what it holds.
#[derive(Debug, Clone, PartialEq, Eq)]
pub struct Column {
    pub name: String,
    pub value: SqlValue,
}

/// What [`Column`] is in contracts.
pub struct ColumnView {
    pub name: Seq<char>,
    pub value: SqlValueView,
}

impl View for Column {
    type V = ColumnView;

    open spec fn view(&self) -> ColumnView {
        ColumnView { name: self.name@, value: self.value@ }
    }
}

/// A row that the database returned.
#[derive(Debug, Clone, PartialEq, Eq)]
pub struct Row {
    pub columns: Vec<Column>,
}

impl View for Row {
    type V = Seq<ColumnView>;

    open spec fn view(&self) -> Seq<ColumnView> {
        self.columns@.map_values(|c: Column| c@)
    }
}

/// The outcome of running a statement that returns at most one row.
#[derive(Debug, Clone, PartialEq, Eq)]
pub enum Fetched {
    Row(Row),
    /// The statement ran and returned no row.
    NoRow,
    /// The database failed; the text is the cause, for the log.
    Failed(String),
}

/// What [`Fetched`] is in contracts.
pub enum FetchedView {
    Row(Seq<ColumnView>),
    NoRow,
    Failed(Seq<char>),
}

impl View for Fetched {
    type V = FetchedView;

    open spec fn view(&self) -> FetchedView {
        match self {
            Fetched::Row(row) => FetchedView::Row(row@),
            Fetched::NoRow => FetchedView::NoRow,
            Fetched::Failed(cause) => FetchedView::Failed(cause@),
        }
    }
}

/// Why a store operation gave no value.
#[derive(Debug, Clone, PartialEq, Eq)]
pub enum StoreError {
    /// No row has the identifier that was asked for.
    NotFound,
    /// Any other failure at the database; the text is the cause, for the log.
    Failed(String),
}

/// What [`StoreError`] is in contracts.
pub enum StoreErrorView {
    NotFound,
    Failed(Seq<char>),
}

impl View for StoreError {
    type V = StoreErrorView;

    open spec fn view(&self) -> StoreErrorView {
        match self {
            StoreError::NotFound => StoreErrorView::NotFound,
            StoreError::Failed(cause) => StoreErrorView::Failed(cause@),
        }
    }
}

/// One operation on the `owners` table.
#[derive(Debug, Clone, PartialEq, Eq)]
pub enum Command {
    Select { id: i32 },
    Insert { owner: CreateOwner },
    UpdateProfile { profile: UpdateProfile },
    UpdateCredentials { credentials: UpdateCredentials },
    Delete { id: i32 },
}

/// What [`Command`] is in contracts.
pub enum CommandView {
    Select { id: int },
    Insert { owner: CreateOwnerView },
    UpdateProfile { profile: UpdateProfileView },
    UpdateCredentials { credentials: UpdateCredentialsView },
    Delete { id: int },
}

impl View for Command {
    type V = CommandView;

    open spec fn view(&self) -> CommandView {
        match self {
            Command::Select { id } => CommandView::Select { id: *id as int },
            Command::Insert { owner } => CommandView::Insert { owner: owner@ },
            Command::UpdateProfile { profile } => CommandView::UpdateProfile {
                profile: profile@,
            },
            Command::UpdateCredentials { credentials } => CommandView::UpdateCredentials {
                credentials: credentials@,
            },
            Command::Delete { id } => CommandView::Delete { id: *id as int },
        }
    }
}

/// The text of each name in a list of names.
pub open spec fn texts(names: Seq<&'static str>) -> Seq<Seq<char>> {
    names.map_values(|n: &'static str| n@)
}

/// `name` with each double quote in it written twice.
pub open spec fn doubled(name: Seq<char>) -> Seq<char>
    decreases name.len(),
{
    if name.len() == 0 {
        Seq::empty()
    } else if name[0] == '"' {
        seq!['"', '"'] + doubled(name.drop_first())
    } else {
        seq![name[0]] + doubled(name.drop_first())
    }
}

/// `name` as an identifier in PostgreSQL: between double quotes, each double
/// quote in it written twice.
pub open spec fn quoted(name: Seq<char>) -> Seq<char> {
    seq!['"'] + doubled(name) + seq!['"']
}

/// The identifiers `names`, parted by a comma and a space.
pub open spec fn quoted_list(names: Seq<Seq<char>>) -> Seq<char>
    decreases names.len(),
{
    if names.len() == 0 {
        Seq::empty()
    } else if names.len() == 1 {
        quoted(names[0])
    } else {
        quoted(names[0]) + COMMA@ + quoted_list(names.drop_first())
    }
}

/// The placeholders `$first`, `$first+1` and so on, `count` of them, parted
/// by a comma and a space.
pub open spec fn placeholders(first: nat, count: nat) -> Seq<char>
    decreases count,
{
    if count == 0 {
        Seq::empty()
    } else if count == 1 {
        seq!['$'] + digits_of(first)
    } else {
        seq!['$'] + digits_of(first) + COMMA@ + placeholders(first + 1, (count - 1) as nat)
    }
}

/// The `SELECT` of `columns` from `table`, filtered by `key` being equal
/// to the one bound value.
pub open spec fn select_text(
    table: Seq<char>,
    columns: Seq<Seq<char>>,
    key: Seq<char>,
) -> Seq<char> {
    SELECT@ + quoted_list(columns) + FROM@ + quoted(table) + WHERE@ + quoted(key) + EQUALS@
        + placeholders(1, 1)
}

/// The `INSERT` of one row into `columns` of `table`, one bound value for
/// each column, that returns the column `returning`.
pub open spec fn insert_text(
    table: Seq<char>,
    columns: Seq<Seq<char>>,
    returning: Seq<char>,
) -> Seq<char> {
    INSERT_INTO@ + quoted(table) + OPEN@ + quoted_list(columns) + VALUES@ + placeholders(
        1,
        columns.len(),
    ) + RETURNING@ + quoted(returning)
}

/// Builds a `SELECT` with `sea_query::Query::select` and renders it for
/// PostgreSQL with `sea_query_binder::SqlxBinder::build_sqlx`.
///
/// Claimed of them: the text is `SELECT`, the quoted columns, `FROM`, the
/// quoted table, `WHERE`, the quoted key, `= $1`; it never holds `id`,
/// which is the one bound value.
#[verifier::external_body]
fn render_select(table: &str, columns: &Vec<&'static str>, key: &str, id: i32) -> (out: Statement)
    ensures
        out@.sql == select_text(table@, texts(columns@), key@),
        out@.params == seq![SqlValueView::Int(id as int)],
{
    let (sql, values) = Query::select()
        .columns(columns.iter().map(|c| Alias::new(*c)))
        .from(Alias::new(table))
        .and_where(Expr::col(Alias::new(key)).eq(id))
        .build_sqlx(PostgresQueryBuilder);
    let params = values.0.0.into_iter().map(|v| match v {
        Value::Int(Some(i)) => SqlValue::Int(i),
        Value::String(Some(s)) => SqlValue::Text(*s),
        _ => SqlValue::Other,
    });
    Statement { sql, params: params.collect() }
}

/// Builds an `INSERT ... RETURNING` with `sea_query::Query::insert` and
/// renders it for PostgreSQL with `sea_query_binder::SqlxBinder::build_sqlx`.
///
/// Claimed of them: the text is `INSERT INTO`, the quoted table, the quoted
/// columns in brackets, `VALUES` with one numbered placeholder for each
/// value, `RETURNING`, the quoted column; it never holds a value. The bound
/// values are `values`, unchanged and in order. `values_panic` panics
/// unless there is one value for each column, and without a column the
/// builder writes no `VALUES` at all.
#[verifier::external_body]
fn render_insert(
    table: &str,
    columns: &Vec<&'static str>,
    values: Vec<String>,
    returning: &str,
) -> (out: Statement)
    requires
        columns@.len() == values@.len(),
        columns@.len() > 0,
    ensures
        out@.sql == insert_text(table@, texts(columns@), returning@),
        out@.params == values@.map_values(|v: String| SqlValueView::Text(v@)),
{
    let (sql, values) = Query::insert()
        .into_table(Alias::new(table))
        .columns(columns.iter().map(|c| Alias::new(*c)))
        .values_panic(values.into_iter().map(|v| v.into()))
        .returning(Query::returning().columns([Alias::new(returning)]))
        .build_sqlx(PostgresQueryBuilder);
    let params = values.0.0.into_iter().map(|v| match v {
        Value::Int(Some(i)) => SqlValue::Int(i),
        Value::String(Some(s)) => SqlValue::Text(*s),
        _ => SqlValue::Other,
    });
    Statement { sql, params: params.collect() }
}

/// The text of [`select_owner`], whatever the identifier.
pub const SELECT_OWNER_SQL: &'static str =
    "SELECT \"id\", \"name\", \"email\", \"password\" FROM \"owners\" WHERE \"id\" = $1";

/// The text of [`create_owner`], whatever the owner.
pub const INSERT_OWNER_SQL: &'static str =
    "INSERT INTO \"owners\" (\"name\", \"email\", \"password\") VALUES ($1, $2, $3) RETURNING \"id\"";

/// A name without a double quote is quoted by putting it between two.
pub proof fn lemma_quoted_plain(name: Seq<char>)
    requires
        forall|i: int| 0 <= i < name.len() ==> name[i] != '"',
    ensures
        doubled(name) == name,
        quoted(name) == seq!['"'] + name + seq!['"'],
    decreases name.len(),
{
    if name.len() > 0 {
        let rest = name.drop_first();
        assert forall|i: int| 0 <= i < rest.len() implies rest[i] != '"' by {
            assert(rest[i] == name[i + 1]);
        }
        lemma_quoted_plain(rest);
        assert(seq![name[0]] + rest =~= name);
    }
}

/// The names of the table and of its columns, quoted.
proof fn lemma_quoted_names()
    ensures
        quoted(OWNERS_TABLE@) == "\"owners\""@,
        quoted(ID_COLUMN@) == "\"id\""@,
        quoted(NAME_COLUMN@) == "\"name\""@,
        quoted(EMAIL_COLUMN@) == "\"email\""@,
        quoted(PASSWORD_COLUMN@) == "\"password\""@,
{
    reveal_strlit("owners");
    reveal_strlit("id");
    reveal_strlit("name");
    reveal_strlit("email");
    reveal_strlit("password");
    reveal_strlit("\"owners\"");
    reveal_strlit("\"id\"");
    reveal_strlit("\"name\"");
    reveal_strlit("\"email\"");
    reveal_strlit("\"password\"");
    lemma_quoted_plain(OWNERS_TABLE@);
    lemma_quoted_plain(ID_COLUMN@);
    lemma_quoted_plain(NAME_COLUMN@);
    lemma_quoted_plain(EMAIL_COLUMN@);
    lemma_quoted_plain(PASSWORD_COLUMN@);
    assert(quoted(OWNERS_TABLE@) =~= "\"owners\""@);
    assert(quoted(ID_COLUMN@) =~= "\"id\""@);
    assert(quoted(NAME_COLUMN@) =~= "\"name\""@);
    assert(quoted(EMAIL_COLUMN@) =~= "\"email\""@);
    assert(quoted(PASSWORD_COLUMN@) =~= "\"password\""@);
}

/// The read of an owner is this one text: it selects the four columns of
/// the table and filters by `id`.
pub proof fn lemma_select_owner_text()
    ensures
        select_text(
            OWNERS_TABLE@,
            seq![ID_COLUMN@, NAME_COLUMN@, EMAIL_COLUMN@, PASSWORD_COLUMN@],
            ID_COLUMN@,
        ) == SELECT_OWNER_SQL@,
{
    lemma_quoted_names();
    let columns = seq![ID_COLUMN@, NAME_COLUMN@, EMAIL_COLUMN@, PASSWORD_COLUMN@];
    let c1 = columns.drop_first();
    let c2 = c1.drop_first();
    let c3 = c2.drop_first();
    assert(c1[0] == NAME_COLUMN@ && c2[0] == EMAIL_COLUMN@ && c3[0] == PASSWORD_COLUMN@);
    reveal_strlit(", ");
    reveal_strlit("\"id\"");
    reveal_strlit("\"name\"");
    reveal_strlit("\"email\"");
    reveal_strlit("\"password\"");
    reveal_strlit("\"owners\"");
    reveal_strlit("\"id\", \"name\", \"email\", \"password\"");
    assert(quoted_list(c3) == "\"password\""@);
    assert(quoted_list(c2) == "\"email\""@ + COMMA@ + "\"password\""@);
    assert(quoted_list(c1) == "\"name\""@ + COMMA@ + quoted_list(c2));
    assert(quoted_list(columns) == "\"id\""@ + COMMA@ + quoted_list(c1));
    assert(quoted_list(columns) =~= "\"id\", \"name\", \"email\", \"password\""@);
    reveal_strlit("SELECT ");
    reveal_strlit(" FROM ");
    reveal_strlit(" WHERE ");
    reveal_strlit(" = ");
    reveal_strlit(
        "SELECT \"id\", \"name\", \"email\", \"password\" FROM \"owners\" WHERE \"id\" = $1",
    );
    assert(placeholders(1, 1) =~= seq!['$', '1']);
    assert(select_text(OWNERS_TABLE@, columns, ID_COLUMN@) =~= SELECT_OWNER_SQL@);
}

/// The insert of an owner is this one text: it names the three columns
/// that are sent, binds one value to each, and returns `id`.
pub proof fn lemma_create_owner_text()
    ensures
        insert_text(
            OWNERS_TABLE@,
            seq![NAME_COLUMN@, EMAIL_COLUMN@, PASSWORD_COLUMN@],
            ID_COLUMN@,
        ) == INSERT_OWNER_SQL@,
{
    lemma_quoted_names();
    let columns = seq![NAME_COLUMN@, EMAIL_COLUMN@, PASSWORD_COLUMN@];
    let c1 = columns.drop_first();
    let c2 = c1.drop_first();
    assert(c1[0] == EMAIL_COLUMN@ && c2[0] == PASSWORD_COLUMN@);
    reveal_strlit(", ");
    reveal_strlit("\"id\"");
    reveal_strlit("\"name\"");
    reveal_strlit("\"email\"");
    reveal_strlit("\"password\"");
    reveal_strlit("\"owners\"");
    reveal_strlit("\"name\", \"email\", \"password\"");
    reveal_strlit("$1, $2, $3");
    assert(quoted_list(c2) == "\"password\""@);
    assert(quoted_list(c1) == "\"email\""@ + COMMA@ + quoted_list(c2));
    assert(quoted_list(columns) == "\"name\""@ + COMMA@ + quoted_list(c1));
    assert(quoted_list(columns) =~= "\"name\", \"email\", \"password\""@);
    assert(digits_of(1) =~= seq!['1']);
    assert(digits_of(2) =~= seq!['2']);
    assert(digits_of(3) =~= seq!['3']);
    assert(placeholders(3, 1) =~= seq!['$', '3']);
    assert(placeholders(2, 2) =~= seq!['$', '2', ',', ' ', '$', '3']);
    assert(placeholders(1, 3) =~= "$1, $2, $3"@);
    reveal_strlit("INSERT INTO ");
    reveal_strlit(" (");
    reveal_strlit(") VALUES (");
    reveal_strlit(") RETURNING ");
    reveal_strlit(
        "INSERT INTO \"owners\" (\"name\", \"email\", \"password\") VALUES ($1, $2, $3) RETURNING \"id\"",
    );
    assert(insert_text(OWNERS_TABLE@, columns, ID_COLUMN@) =~= INSERT_OWNER_SQL@);
}

/// The statement that reads the owner `id`.
pub open spec fn select_owner_statement(id: int) -> StatementView {
    StatementView { sql: SELECT_OWNER_SQL@, params: seq![SqlValueView::Int(id)] }
}

/// The statement that stores a new owner and returns its identifier.
pub open spec fn create_owner_statement(owner: CreateOwnerView) -> StatementView {
    StatementView {
        sql: INSERT_OWNER_SQL@,
        params: seq![
            SqlValueView::Text(owner.name),
            SqlValueView::Text(owner.email),
            SqlValueView::Text(owner.password),
        ],
    }
}

/// The statement that renames an owner.
pub open spec fn update_profile_statement(patch: UpdateProfileView) -> StatementView {
    StatementView {
        sql: UPDATE_PROFILE_SQL@,
        params: seq![SqlValueView::Text(patch.name), SqlValueView::Int(patch.owner_id)],
    }
}

/// The statement that replaces an owner's email and password.
pub open spec fn update_credentials_statement(patch: UpdateCredentialsView) -> StatementView {
    StatementView {
        sql: UPDATE_CREDENTIALS_SQL@,
        params: seq![
            SqlValueView::Text(patch.email),
            SqlValueView::Text(patch.password),
            SqlValueView::Int(patch.owner_id),
        ],
    }
}

/// The statement that removes the owner `id`.
pub open spec fn delete_owner_statement(id: int) -> StatementView {
    StatementView { sql: DELETE_OWNER_SQL@, params: seq![SqlValueView::Int(id)] }
}

/// The statement of each command.
pub open spec fn statement_of(command: CommandView) -> StatementView {
    match command {
        CommandView::Select { id } => select_owner_statement(id),
        CommandView::Insert { owner } => create_owner_statement(owner),
        CommandView::UpdateProfile { profile } => update_profile_statement(profile),
        CommandView::UpdateCredentials { credentials } => update_credentials_statement(
            credentials,
        ),
        CommandView::Delete { id } => delete_owner_statement(id),
    }
}

/// The `SELECT` of one owner by identifier. The identifier is bound, not
/// written into the text.
pub fn select_owner(id: i32) -> (statement: Statement)
    ensures
        statement@ == select_owner_statement(id as int),
{
    let columns: Vec<&'static str> = vec![ID_COLUMN, NAME_COLUMN, EMAIL_COLUMN, PASSWORD_COLUMN];
    assert(texts(columns@) =~= seq![ID_COLUMN@, NAME_COLUMN@, EMAIL_COLUMN@, PASSWORD_COLUMN@]);
    proof {
        lemma_select_owner_text();
    }
    render_select(OWNERS_TABLE, &columns, ID_COLUMN, id)
}

/// The `INSERT` of a new owner, which returns the identifier that the
/// database assigns. The three fields are bound as they are: whatever they
/// hold, the text of the statement is the same. The password is among
/// them and is stored as it was sent: nothing here hashes it.
pub fn create_owner(owner: CreateOwner) -> (statement: Statement)
    ensures
        statement@ == create_owner_statement(owner@),
{
    let columns: Vec<&'static str> = vec![NAME_COLUMN, EMAIL_COLUMN, PASSWORD_COLUMN];
    let values: Vec<String> = vec![owner.name, owner.email, owner.password];
    assert(texts(columns@) =~= seq![NAME_COLUMN@, EMAIL_COLUMN@, PASSWORD_COLUMN@]);
    assert(values@.map_values(|v: String| SqlValueView::Text(v@)) =~= seq![
        SqlValueView::Text(owner.name@),
        SqlValueView::Text(owner.email@),
        SqlValueView::Text(owner.password@),
    ]);
    proof {
        lemma_create_owner_text();
    }
    render_insert(OWNERS_TABLE, &columns, values, ID_COLUMN)
}

/// The `UPDATE` of an owner's name.
pub fn rename_owner(patch: UpdateProfile) -> (statement: Statement)
    ensures
        statement@ == update_profile_statement(patch@),
{
    let statement = Statement {
        sql: String::from_str(UPDATE_PROFILE_SQL),
        params: vec![SqlValue::Text(patch.name), SqlValue::Int(patch.owner_id)],
    };
    assert(statement@.params =~= update_profile_statement(patch@).params);
    statement
}

/// The `UPDATE` of an owner's email and password.
pub fn replace_credentials(patch: UpdateCredentials) -> (statement: Statement)
    ensures
        statement@ == update_credentials_statement(patch@),
{
    let statement = Statement {
        sql: String::from_str(UPDATE_CREDENTIALS_SQL),
        params: vec![
            SqlValue::Text(patch.email),
            SqlValue::Text(patch.password),
            SqlValue::Int(patch.owner_id),
        ],
    };
    assert(statement@.params =~= update_credentials_statement(patch@).params);
    statement
}

/// The `DELETE` of one owner by identifier.
pub fn remove_owner(id: i32) -> (statement: Statement)
    ensures
        statement@ == delete_owner_statement(id as int),
{
    let statement = Statement {
        sql: String::from_str(DELETE_OWNER_SQL),
        params: vec![SqlValue::Int(id)],
    };
    assert(statement@.params =~= delete_owner_statement(id as int).params);
    statement
}

impl Command {
    /// The one statement that carries out this command.
    pub fn statement(&self) -> (statement: Statement)
        ensures
            statement@ == statement_of(self@),
    {
        match self {
            Command::Select { id } => select_owner(*id),
            Command::Insert { owner } => create_owner(
                CreateOwner {
                    name: owner.name.clone(),
                    email: owner.email.clone(),
                    password: owner.password.clone(),
                },
            ),
            Command::UpdateProfile { profile } => rename_owner(
                UpdateProfile { name: profile.name.clone(), owner_id: profile.owner_id },
            ),
            Command::UpdateCredentials { credentials } => replace_credentials(
                UpdateCredentials {
                    email: credentials.email.clone(),
                    password: credentials.password.clone(),
                    owner_id: credentials.owner_id,
                },
            ),
            Command::Delete { id } => remove_owner(*id),
        }
    }
}

/// The view of a result: the view of what it holds.
pub open spec fn result_view<T: View, E: View>(result: Result<T, E>) -> Result<T::V, E::V> {
    match result {
        Ok(value) => Ok(value@),
        Err(error) => Err(error@),
    }
}

/// What the first column of `row` with the name `name` holds.
pub open spec fn column_value(row: Seq<ColumnView>, name: Seq<char>) -> Option<SqlValueView>
    decreases row.len(),
{
    if row.len() == 0 {
        None
    } else if row[0].name == name {
        Some(row[0].value)
    } else {
        column_value(row.drop_first(), name)
    }
}

/// The integer in the column `name`, where `row` has that column and it
/// holds an integer.
pub open spec fn int_column(row: Seq<ColumnView>, name: Seq<char>) -> Option<int> {
    match column_value(row, name) {
        Some(SqlValueView::Int(v)) => Some(v),
        _ => None,
    }
}

/// The text in the column `name`, where `row` has that column and it holds
/// text.
pub open spec fn text_column(row: Seq<ColumnView>, name: Seq<char>) -> Option<Seq<char>> {
    match column_value(row, name) {
        Some(SqlValueView::Text(t)) => Some(t),
        _ => None,
    }
}

/// The owner that a row of the `owners` table holds.
pub open spec fn owner_of_row(row: Seq<ColumnView>) -> Option<OwnersView> {
    if int_column(row, ID_COLUMN@) is Some && text_column(row, NAME_COLUMN@) is Some
        && text_column(row, EMAIL_COLUMN@) is Some && text_column(row, PASSWORD_COLUMN@) is Some {
        Some(
            OwnersView {
                id: int_column(row, ID_COLUMN@)->0,
                name: text_column(row, NAME_COLUMN@)->0,
                email: text_column(row, EMAIL_COLUMN@)->0,
                password: text_column(row, PASSWORD_COLUMN@)->0,
            },
        )
    } else {
        None
    }
}

/// What a read gives: the owner in the row; `NotFound` where there is no
/// row; a failure where the database failed or the row is not an owner.
pub open spec fn selected(fetched: FetchedView) -> Result<OwnersView, StoreErrorView> {
    match fetched {
        FetchedView::Row(row) => match owner_of_row(row) {
            Some(owner) => Ok(owner),
            None => Err(StoreErrorView::Failed(MALFORMED_ROW@)),
        },
        FetchedView::NoRow => Err(StoreErrorView::NotFound),
        FetchedView::Failed(cause) => Err(StoreErrorView::Failed(cause)),
    }
}

/// What an insert gives: the identifier in the returned row; a failure
/// where the database failed or returned no identifier.
pub open spec fn inserted(fetched: FetchedView) -> Result<int, StoreErrorView> {
    match fetched {
        FetchedView::Row(row) => match int_column(row, ID_COLUMN@) {
            Some(id) => Ok(id),
            None => Err(StoreErrorView::Failed(MALFORMED_ROW@)),
        },
        FetchedView::NoRow => Err(StoreErrorView::Failed(MISSING_ROW@)),
        FetchedView::Failed(cause) => Err(StoreErrorView::Failed(cause)),
    }
}

/// What an update or a delete gives: a failure where the database failed,
/// and nothing otherwise. That no row matched is no failure.
pub open spec fn written(fetched: FetchedView) -> Result<(), StoreErrorView> {
    match fetched {
        FetchedView::Failed(cause) => Err(StoreErrorView::Failed(cause)),
        _ => Ok(()),
    }
}

impl Row {
    /// What the first column with the name `name` holds.
    pub fn get(&self, name: &str) -> (value: Option<&SqlValue>)
        ensures
            match value {
                Some(v) => column_value(self@, name@) == Some(v@),
                None => column_value(self@, name@) is None,
            },
    {
        let key = String::from_str(name);
        let n = self.columns.len();
        let mut i: usize = 0;
        assert(self@.subrange(0, n as int) =~= self@);
        while i < n
            invariant
                n == self.columns.len(),
                i <= n,
                key@ == name@,
                column_value(self@, name@) == column_value(
                    self@.subrange(i as int, n as int),
                    name@,
                ),
            decreases n - i,
        {
            let ghost rest = self@.subrange(i as int, n as int);
            assert(rest[0] == self.columns@[i as int]@);
            if self.columns[i].name == key {
                return Some(&self.columns[i].value);
            }
            assert(rest.drop_first() =~= self@.subrange(i + 1, n as int));
            i = i + 1;
        }
        None
    }

    /// The integer in the column `name`.
    pub fn get_int(&self, name: &str) -> (value: Option<i32>)
        ensures
            match value {
                Some(v) => int_column(self@, name@) == Some(v as int),
                None => int_column(self@, name@) is None,
            },
    {
        match self.get(name) {
            Some(SqlValue::Int(v)) => Some(*v),
            _ => None,
        }
    }

    /// The text in the column `name`.
    pub fn get_text(&self, name: &str) -> (value: Option<String>)
        ensures
            match value {
                Some(t) => text_column(self@, name@) == Some(t@),
                None => text_column(self@, name@) is None,
            },
    {
        match self.get(name) {
            Some(SqlValue::Text(t)) => Some(t.clone()),
            _ => None,
        }
    }

    /// The owner that this row holds, where it has the four columns of the
    /// `owners` table with an integer `id` and the others text.
    pub fn owner(&self) -> (owner: Option<Owners>)
        ensures
            match owner {
                Some(o) => owner_of_row(self@) == Some(o@),
                None => owner_of_row(self@) is None,
            },
    {
        let id = match self.get_int(ID_COLUMN) {
            Some(id) => id,
            None => {
                return None;
            },
        };
        let name = match self.get_text(NAME_COLUMN) {
            Some(name) => name,
            None => {
                return None;
            },
        };
        let email = match self.get_text(EMAIL_COLUMN) {
            Some(email) => email,
            None => {
                return None;
            },
        };
        let password = match self.get_text(PASSWORD_COLUMN) {
            Some(password) => password,
            None => {
                return None;
            },
        };
        Some(Owners { id, name, email, password })
    }
}

/// Reads the outcome of a [`select_owner`] statement.
pub fn read_owner(fetched: Fetched) -> (result: Result<Owners, StoreError>)
    ensures
        result_view(result) == selected(fetched@),
{
    match fetched {
        Fetched::Row(row) => match row.owner() {
            Some(owner) => Ok(owner),
            None => Err(StoreError::Failed(String::from_str(MALFORMED_ROW))),
        },
        Fetched::NoRow => Err(StoreError::NotFound),
        Fetched::Failed(cause) => Err(StoreError::Failed(cause)),
    }
}

/// Reads the outcome of a [`create_owner`] statement.
pub fn read_created(fetched: Fetched) -> (result: Result<CreateOwnerResponse, StoreError>)
    ensures
        result_view(result) == inserted(fetched@),
{
    match fetched {
        Fetched::Row(row) => match row.get_int(ID_COLUMN) {
            Some(id) => Ok(CreateOwnerResponse { id }),
            None => Err(StoreError::Failed(String::from_str(MALFORMED_ROW))),
        },
        Fetched::NoRow => Err(StoreError::Failed(String::from_str(MISSING_ROW))),
        Fetched::Failed(cause) => Err(StoreError::Failed(cause)),
    }
}

/// Reads the outcome of an update or a delete.
pub fn read_written(fetched: Fetched) -> (result: Result<(), StoreError>)
    ensures
        match result {
            Ok(_) => written(fetched@) is Ok,
            Err(error) => written(fetched@) == Err::<(), StoreErrorView>(error@),
        },
{
    match fetched {
        Fetched::Failed(cause) => Err(StoreError::Failed(cause)),
        _ => Ok(()),
    }
}

} // verus!
