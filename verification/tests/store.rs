use proximity_service::api::owner::{CreateOwner, CreateOwnerResponse, Owners, UpdateCredentials, UpdateProfile};
use proximity_service::store::{
    create_owner, read_created, read_owner, read_written, remove_owner, rename_owner,
    replace_credentials, select_owner, Column, Command, Fetched, Row, SqlValue, Statement,
    StoreError, INSERT_OWNER_SQL, SELECT_OWNER_SQL,
};

fn column(name: &str, value: SqlValue) -> Column {
    Column { name: name.to_string(), value }
}

fn text(value: &str) -> SqlValue {
    SqlValue::Text(value.to_string())
}

fn owner_row() -> Row {
    Row {
        columns: vec![
            column("id", SqlValue::Int(7)),
            column("name", text("Henry")),
            column("email", text("@gmail.com")),
            column("password", text("password")),
        ],
    }
}

#[test]
fn select_owner_binds_the_identifier() {
    let statement = select_owner(7);
    assert_eq!(
        statement.sql,
        "SELECT \"id\", \"name\", \"email\", \"password\" FROM \"owners\" WHERE \"id\" = $1"
    );
    assert_eq!(statement.params, vec![SqlValue::Int(7)]);
}

#[test]
fn statement_texts_are_the_constants() {
    assert_eq!(select_owner(3).sql, SELECT_OWNER_SQL);
    let owner = CreateOwner {
        name: String::from("a\"b"),
        email: String::from("$1"),
        password: String::from("'); --"),
    };
    assert_eq!(create_owner(owner).sql, INSERT_OWNER_SQL);
}

#[test]
fn select_owner_text_is_the_same_for_every_identifier() {
    assert_eq!(select_owner(1).sql, select_owner(-2000).sql);
    assert_eq!(select_owner(i32::MIN).params, vec![SqlValue::Int(i32::MIN)]);
}

#[test]
fn create_owner_binds_the_three_fields() {
    let statement = create_owner(CreateOwner {
        name: String::from("Henry"),
        email: String::from("@gmail.com"),
        password: String::from("password"),
    });
    assert_eq!(
        statement.sql,
        "INSERT INTO \"owners\" (\"name\", \"email\", \"password\") VALUES ($1, $2, $3) RETURNING \"id\""
    );
    assert_eq!(statement.params, vec![text("Henry"), text("@gmail.com"), text("password")]);
}

#[test]
fn rename_owner_binds_name_then_identifier() {
    let statement = rename_owner(UpdateProfile { name: String::from("Jane"), owner_id: 4 });
    assert_eq!(
        statement,
        Statement {
            sql: String::from("UPDATE owners SET name = $1 WHERE id = $2;"),
            params: vec![text("Jane"), SqlValue::Int(4)],
        }
    );
}

#[test]
fn replace_credentials_binds_email_password_identifier() {
    let statement = replace_credentials(UpdateCredentials {
        email: String::from("gray_fox@thepatriots.com"),
        password: String::from("lalilulelo"),
        owner_id: 4,
    });
    assert_eq!(
        statement,
        Statement {
            sql: String::from("UPDATE owners SET email = $1, password = $2 WHERE id = $3;"),
            params: vec![text("gray_fox@thepatriots.com"), text("lalilulelo"), SqlValue::Int(4)],
        }
    );
}

#[test]
fn remove_owner_binds_the_identifier() {
    let statement = remove_owner(4);
    assert_eq!(
        statement,
        Statement {
            sql: String::from("delete from \"owners\" where id = $1"),
            params: vec![SqlValue::Int(4)],
        }
    );
}

#[test]
fn command_statement_is_the_statement_of_its_operation() {
    assert_eq!(Command::Select { id: 9 }.statement(), select_owner(9));
    assert_eq!(Command::Delete { id: 9 }.statement(), remove_owner(9));
    let profile = UpdateProfile { name: String::from("Jane"), owner_id: 2 };
    assert_eq!(
        Command::UpdateProfile { profile: profile.clone() }.statement(),
        rename_owner(profile)
    );
    let credentials = UpdateCredentials {
        email: String::from("e"),
        password: String::from("p"),
        owner_id: 2,
    };
    assert_eq!(
        Command::UpdateCredentials { credentials: credentials.clone() }.statement(),
        replace_credentials(credentials)
    );
    let owner = CreateOwner {
        name: String::from("n"),
        email: String::from("e"),
        password: String::from("p"),
    };
    assert_eq!(Command::Insert { owner: owner.clone() }.statement(), create_owner(owner));
}

#[test]
fn row_get_takes_the_first_column_of_that_name() {
    let row = Row {
        columns: vec![
            column("name", text("first")),
            column("id", SqlValue::Int(1)),
            column("name", text("second")),
        ],
    };
    assert_eq!(row.get("name"), Some(&text("first")));
    assert_eq!(row.get("id"), Some(&SqlValue::Int(1)));
    assert_eq!(row.get("email"), None);
    assert_eq!(row.get_int("id"), Some(1));
    assert_eq!(row.get_int("name"), None);
    assert_eq!(row.get_text("name"), Some(String::from("first")));
    assert_eq!(row.get_text("id"), None);
    assert_eq!(Row { columns: vec![] }.get("id"), None);
}

#[test]
fn read_owner_gives_the_owner_in_the_row() {
    assert_eq!(
        read_owner(Fetched::Row(owner_row())),
        Ok(Owners {
            id: 7,
            name: String::from("Henry"),
            email: String::from("@gmail.com"),
            password: String::from("password"),
        })
    );
}

#[test]
fn read_owner_goes_by_column_names_not_positions() {
    let mut row = owner_row();
    row.columns.reverse();
    assert_eq!(read_owner(Fetched::Row(row)).map(|o| o.id), Ok(7));
}

#[test]
fn read_owner_without_a_row_is_not_found() {
    assert_eq!(read_owner(Fetched::NoRow), Err(StoreError::NotFound));
}

#[test]
fn read_owner_passes_the_cause_of_a_failure_on() {
    assert_eq!(
        read_owner(Fetched::Failed(String::from("connection reset"))),
        Err(StoreError::Failed(String::from("connection reset")))
    );
}

#[test]
fn read_owner_of_a_row_that_is_no_owner_fails() {
    let missing = Row { columns: vec![column("id", SqlValue::Int(7)), column("name", text("x"))] };
    assert_eq!(
        read_owner(Fetched::Row(missing)),
        Err(StoreError::Failed(String::from("row does not have the expected columns")))
    );
    let mut wrong_type = owner_row();
    wrong_type.columns[0].value = text("7");
    assert!(matches!(read_owner(Fetched::Row(wrong_type)), Err(StoreError::Failed(_))));
    let mut other = owner_row();
    other.columns[2].value = SqlValue::Other;
    assert!(matches!(read_owner(Fetched::Row(other)), Err(StoreError::Failed(_))));
}

#[test]
fn read_created_gives_the_identifier() {
    let row = Row { columns: vec![column("id", SqlValue::Int(12))] };
    assert_eq!(read_created(Fetched::Row(row)), Ok(CreateOwnerResponse { id: 12 }));
}

#[test]
fn read_created_without_an_identifier_fails() {
    assert_eq!(
        read_created(Fetched::NoRow),
        Err(StoreError::Failed(String::from("statement returned no row")))
    );
    assert_eq!(
        read_created(Fetched::Row(Row { columns: vec![] })),
        Err(StoreError::Failed(String::from("row does not have the expected columns")))
    );
    assert_eq!(
        read_created(Fetched::Failed(String::from("boom"))),
        Err(StoreError::Failed(String::from("boom")))
    );
}

#[test]
fn read_written_fails_only_where_the_database_failed() {
    assert_eq!(read_written(Fetched::NoRow), Ok(()));
    assert_eq!(read_written(Fetched::Row(owner_row())), Ok(()));
    assert_eq!(
        read_written(Fetched::Failed(String::from("boom"))),
        Err(StoreError::Failed(String::from("boom")))
    );
}
