use proximity_service::api::owner::{
    delete_owner, get_owner, post_owner, respond, router, update_credentials, update_profile,
    ApiPayload, CreateOwner, CreateOwnerResponse, ErrorResponse, OwnerSummary, UpdateCredentials,
    UpdateProfile,
};
use proximity_service::api::{routes, Body, Handler, Method, Plan, Response};
use proximity_service::store::{Column, Command, Fetched, Row, SqlValue};
use std::collections::BTreeMap;

/// A table in memory that answers commands as a database would.
struct Database {
    rows: BTreeMap<i32, (String, String, String)>,
    next_id: i32,
}

fn column(name: &str, value: SqlValue) -> Column {
    Column { name: name.to_string(), value }
}

impl Database {
    fn new() -> Self {
        Database { rows: BTreeMap::new(), next_id: 1 }
    }

    fn run(&mut self, command: &Command) -> Fetched {
        match command {
            Command::Select { id } => match self.rows.get(id) {
                Some((name, email, password)) => Fetched::Row(Row {
                    columns: vec![
                        column("id", SqlValue::Int(*id)),
                        column("name", SqlValue::Text(name.clone())),
                        column("email", SqlValue::Text(email.clone())),
                        column("password", SqlValue::Text(password.clone())),
                    ],
                }),
                None => Fetched::NoRow,
            },
            Command::Insert { owner } => {
                let id = self.next_id;
                self.next_id += 1;
                self.rows.insert(
                    id,
                    (owner.name.clone(), owner.email.clone(), owner.password.clone()),
                );
                Fetched::Row(Row { columns: vec![column("id", SqlValue::Int(id))] })
            }
            Command::UpdateProfile { profile } => {
                if let Some(row) = self.rows.get_mut(&profile.owner_id) {
                    row.0 = profile.name.clone();
                }
                Fetched::NoRow
            }
            Command::UpdateCredentials { credentials } => {
                if let Some(row) = self.rows.get_mut(&credentials.owner_id) {
                    row.1 = credentials.email.clone();
                    row.2 = credentials.password.clone();
                }
                Fetched::NoRow
            }
            Command::Delete { id } => {
                self.rows.remove(id);
                Fetched::NoRow
            }
        }
    }

    /// Serves one plan: a reply as it is, a command by running it once.
    fn serve(&mut self, plan: Plan) -> Response {
        match plan {
            Plan::Reply(response) => response,
            Plan::Query(command) => {
                let statement = command.statement();
                let placeholders = statement.sql.matches('$').count();
                assert_eq!(placeholders, statement.params.len());
                let fetched = self.run(&command);
                respond(&command, fetched)
            }
        }
    }
}

fn henry() -> CreateOwner {
    CreateOwner {
        name: String::from("Henry"),
        email: String::from("@gmail.com"),
        password: String::from("password"),
    }
}

/// Seeds the table with a single owner record and gives its identifier.
fn test_setup(db: &mut Database) -> i32 {
    let owner = CreateOwner {
        name: String::from("David Hayter"),
        email: String::from("solidsnake@sonsofliberty.com"),
        password: String::from("lalilulelo"),
    };
    match db.run(&Command::Insert { owner }) {
        Fetched::Row(row) => row.get_int("id").unwrap(),
        other => panic!("expected an identifier, got {:?}", other),
    }
}

/// Creates one owner through the handler and gives its identifier.
fn setup(db: &mut Database) -> i32 {
    let response = db.serve(post_owner(Some(ApiPayload { payload: henry() })));
    match response.body {
        Body::Created(record) => record.id,
        other => panic!("Expected to get a record, got {:?}", other),
    }
}

fn error_message(response: &Response) -> &str {
    match &response.body {
        Body::Error(ErrorResponse { message }) => message,
        other => panic!("expected a message, got {:?}", other),
    }
}

#[test]
fn test_get_owner() {
    let mut db = Database::new();

    let owner_id = setup(&mut db);

    let response = db.serve(get_owner(&format!("{}", owner_id)));

    let actual = response.status;

    let expected = 200;

    assert_eq!(actual, expected);

    let owner_response = match response.body {
        Body::Owner(owner) => owner,
        other => panic!("expected an owner, got {:?}", other),
    };

    assert_eq!(owner_response.id, owner_id);
}

#[test]
fn test_post_owner() {
    let mut db = Database::new();

    let new_owner = ApiPayload {
        payload: CreateOwner {
            name: String::from("David Hayer"),
            email: String::from("solidsnake@sonsofliberty.test"),
            password: String::from("lalilulelo"),
        },
    };

    let response = db.serve(post_owner(Some(new_owner)));

    assert!((200..300).contains(&response.status));

    let json_response: CreateOwnerResponse = match response.body {
        Body::Created(created) => created,
        other => panic!("expected an identifier, got {:?}", other),
    };

    assert!(json_response.id > 0);
}

#[test]
fn test_delete_owner() {
    let mut db = Database::new();

    let owner_id = setup(&mut db);

    let response = db.serve(delete_owner(&format!("{}", owner_id)));

    let actual = response.status;

    let expected = 204;

    assert_eq!(actual, expected)
}

#[test]
fn test_update_profile_information() {
    let mut db = Database::new();

    let owner_id = setup(&mut db);

    let patch = ApiPayload {
        payload: UpdateProfile { name: String::from("Jane"), owner_id },
    };

    let response = db.serve(update_profile(&format!("{}", owner_id), Some(patch)));

    let actual = response.status;

    let expected = 204;

    assert_eq!(actual, expected)
}

#[test]
fn test_update_credentials() {
    let mut db = Database::new();

    let owner_id = test_setup(&mut db);

    let patch = ApiPayload {
        payload: UpdateCredentials {
            email: String::from("gray_fox@thepatriots.com"),
            password: String::from("lalilulelo"),
            owner_id,
        },
    };

    let response = db.serve(update_credentials(&format!("{}", owner_id), Some(patch)));

    let actual = response.status;

    let expected = 204;

    assert_eq!(actual, expected)
}

#[test]
fn created_owner_reads_back_without_password() {
    let mut db = Database::new();
    let created = db.serve(post_owner(Some(ApiPayload { payload: henry() })));
    assert_eq!(created.status, 201);
    assert_eq!(created.body, Body::Created(CreateOwnerResponse { id: 1 }));

    let read = db.serve(get_owner("1"));
    assert_eq!(
        read,
        Response {
            status: 200,
            body: Body::Owner(OwnerSummary {
                id: 1,
                name: String::from("Henry"),
                email: String::from("@gmail.com"),
            }),
        }
    );
}

#[test]
fn unknown_owner_is_not_found() {
    let mut db = Database::new();
    let response = db.serve(get_owner("42"));
    assert_eq!(response.status, 404);
    assert_eq!(error_message(&response), "Record not found for id: 42");
}

#[test]
fn negative_identifier_is_not_found() {
    let mut db = Database::new();
    let response = db.serve(get_owner("-5"));
    assert_eq!(response.status, 404);
    assert_eq!(error_message(&response), "Record not found for id: -5");
}

#[test]
fn deleted_owner_is_not_found() {
    let mut db = Database::new();
    let id = setup(&mut db);
    let segment = id.to_string();
    assert_eq!(db.serve(get_owner(&segment)).status, 200);
    assert_eq!(db.serve(delete_owner(&segment)).status, 204);
    assert_eq!(db.serve(get_owner(&segment)).status, 404);
}

#[test]
fn deleting_an_unknown_owner_is_no_error() {
    let mut db = Database::new();
    let response = db.serve(delete_owner("9"));
    assert_eq!(response, Response { status: 204, body: Body::Empty });
}

#[test]
fn profile_update_changes_name_and_keeps_email() {
    let mut db = Database::new();
    let id = setup(&mut db);
    let patch = ApiPayload { payload: UpdateProfile { name: String::from("Jane"), owner_id: id } };
    let response = db.serve(update_profile(&id.to_string(), Some(patch)));
    assert_eq!(response, Response { status: 204, body: Body::Empty });

    let read = db.serve(get_owner(&id.to_string()));
    assert_eq!(
        read.body,
        Body::Owner(OwnerSummary {
            id,
            name: String::from("Jane"),
            email: String::from("@gmail.com"),
        })
    );
    assert_eq!(db.rows[&id].2, "password");
}

#[test]
fn credentials_update_keeps_name() {
    let mut db = Database::new();
    let id = setup(&mut db);
    let patch = ApiPayload {
        payload: UpdateCredentials {
            email: String::from("gray_fox@thepatriots.com"),
            password: String::from("lalilulelo"),
            owner_id: id,
        },
    };
    let response = db.serve(update_credentials(&id.to_string(), Some(patch)));
    assert_eq!(response.status, 204);

    assert_eq!(
        db.rows[&id],
        (
            String::from("Henry"),
            String::from("gray_fox@thepatriots.com"),
            String::from("lalilulelo"),
        )
    );
    let read = db.serve(get_owner(&id.to_string()));
    assert_eq!(
        read.body,
        Body::Owner(OwnerSummary {
            id,
            name: String::from("Henry"),
            email: String::from("gray_fox@thepatriots.com"),
        })
    );
}

#[test]
fn update_goes_by_the_owner_in_the_body() {
    let mut db = Database::new();
    let first = setup(&mut db);
    let second = setup(&mut db);
    let patch =
        ApiPayload { payload: UpdateProfile { name: String::from("Jane"), owner_id: second } };
    let response = db.serve(update_profile(&first.to_string(), Some(patch)));
    assert_eq!(response.status, 204);
    assert_eq!(db.rows[&first].0, "Henry");
    assert_eq!(db.rows[&second].0, "Jane");
}

#[test]
fn owner_round_trip_leaves_no_row() {
    let mut db = Database::new();
    let created = db.serve(post_owner(Some(ApiPayload { payload: henry() })));
    assert_eq!(created.status, 201);
    let id = match created.body {
        Body::Created(record) => record.id,
        other => panic!("expected an identifier, got {:?}", other),
    };
    let segment = id.to_string();

    assert_eq!(db.serve(get_owner(&segment)).status, 200);

    let rename = ApiPayload { payload: UpdateProfile { name: String::from("Jane"), owner_id: id } };
    assert_eq!(db.serve(update_profile(&segment, Some(rename))).status, 204);

    let read = db.serve(get_owner(&segment));
    assert_eq!(
        read.body,
        Body::Owner(OwnerSummary {
            id,
            name: String::from("Jane"),
            email: String::from("@gmail.com"),
        })
    );

    let credentials = ApiPayload {
        payload: UpdateCredentials {
            email: String::from("jane@example.test"),
            password: String::from("secret"),
            owner_id: id,
        },
    };
    assert_eq!(db.serve(update_credentials(&segment, Some(credentials))).status, 204);
    assert_eq!(db.serve(delete_owner(&segment)).status, 204);
    assert_eq!(db.serve(get_owner(&segment)).status, 404);
    assert!(db.rows.is_empty());
}

#[test]
fn name_with_sql_in_it_is_stored_as_it_is() {
    let mut db = Database::new();
    let bystander = setup(&mut db);
    let name = "O'Brien'; DROP TABLE owners;--";
    let owner = CreateOwner {
        name: String::from(name),
        email: String::from("obrien@example.test"),
        password: String::from("pw"),
    };

    let plain = Command::Insert { owner: henry() }.statement();
    let hostile = Command::Insert { owner: owner.clone() }.statement();
    assert_eq!(hostile.sql, plain.sql);
    assert!(!hostile.sql.contains("DROP"));
    assert_eq!(hostile.params[0], SqlValue::Text(String::from(name)));

    let created = db.serve(post_owner(Some(ApiPayload { payload: owner })));
    let id = match created.body {
        Body::Created(record) => record.id,
        other => panic!("expected an identifier, got {:?}", other),
    };
    let read = db.serve(get_owner(&id.to_string()));
    assert_eq!(
        read.body,
        Body::Owner(OwnerSummary {
            id,
            name: String::from(name),
            email: String::from("obrien@example.test"),
        })
    );
    assert_eq!(db.rows[&bystander].0, "Henry");
    assert_eq!(db.rows.len(), 2);
}

#[test]
fn identifier_that_is_no_integer_is_rejected_before_the_store() {
    for segment in ["abc", "", "1.5", "12a", "-", "+", "2147483648", "-2147483649", " 1"] {
        for plan in [
            get_owner(segment),
            delete_owner(segment),
            update_profile(
                segment,
                Some(ApiPayload {
                    payload: UpdateProfile { name: String::from("Jane"), owner_id: 1 },
                }),
            ),
            update_credentials(
                segment,
                Some(ApiPayload {
                    payload: UpdateCredentials {
                        email: String::from("e"),
                        password: String::from("p"),
                        owner_id: 1,
                    },
                }),
            ),
        ] {
            match plan {
                Plan::Reply(response) => {
                    assert_eq!(response.status, 400, "segment {:?}", segment);
                    assert_eq!(error_message(&response), "Invalid owner id");
                }
                Plan::Query(command) => {
                    panic!("segment {:?} reached the store: {:?}", segment, command)
                }
            }
        }
    }
}

#[test]
fn identifier_at_the_ends_of_the_range_is_accepted() {
    assert_eq!(get_owner("2147483647"), Plan::Query(Command::Select { id: i32::MAX }));
    assert_eq!(get_owner("-2147483648"), Plan::Query(Command::Select { id: i32::MIN }));
    assert_eq!(get_owner("+7"), Plan::Query(Command::Select { id: 7 }));
    assert_eq!(delete_owner("007"), Plan::Query(Command::Delete { id: 7 }));
}

#[test]
fn unreadable_body_is_rejected_before_the_store() {
    for plan in [post_owner(None), update_profile("1", None), update_credentials("1", None)] {
        match plan {
            Plan::Reply(response) => {
                assert_eq!(response.status, 400);
                assert_eq!(error_message(&response), "Invalid request body");
            }
            Plan::Query(command) => panic!("reached the store: {:?}", command),
        }
    }
}

#[test]
fn store_failure_on_read_is_500_with_a_generic_message() {
    let command = Command::Select { id: 3 };
    let cause = "connection refused: password=hunter2";
    let response = respond(&command, Fetched::Failed(String::from(cause)));
    assert_eq!(response.status, 500);
    assert_eq!(error_message(&response), "Unknown Error");
}

#[test]
fn store_failure_on_create_is_500() {
    let command = Command::Insert { owner: henry() };
    let failed = respond(&command, Fetched::Failed(String::from("duplicate key")));
    assert_eq!(failed.status, 500);
    assert_eq!(error_message(&failed), "Unknown Error");
    let no_row = respond(&command, Fetched::NoRow);
    assert_eq!(no_row.status, 500);
}

#[test]
fn store_failure_on_write_is_500() {
    let commands = [
        Command::UpdateProfile {
            profile: UpdateProfile { name: String::from("Jane"), owner_id: 1 },
        },
        Command::UpdateCredentials {
            credentials: UpdateCredentials {
                email: String::from("e"),
                password: String::from("p"),
                owner_id: 1,
            },
        },
        Command::Delete { id: 1 },
    ];
    for command in commands.iter() {
        let response = respond(command, Fetched::Failed(String::from("connection refused")));
        assert_eq!(response.status, 500);
        assert_eq!(error_message(&response), "Unknown Error");
    }
}

#[test]
fn write_that_matches_no_row_is_204() {
    let commands = [
        Command::UpdateProfile {
            profile: UpdateProfile { name: String::from("Jane"), owner_id: 1 },
        },
        Command::UpdateCredentials {
            credentials: UpdateCredentials {
                email: String::from("e"),
                password: String::from("p"),
                owner_id: 1,
            },
        },
        Command::Delete { id: 1 },
    ];
    for command in commands.iter() {
        let response = respond(command, Fetched::NoRow);
        assert_eq!(response, Response { status: 204, body: Body::Empty });
    }
}

#[test]
fn malformed_row_on_read_is_500() {
    let command = Command::Select { id: 3 };
    let row = Row { columns: vec![column("id", SqlValue::Int(3))] };
    let response = respond(&command, Fetched::Row(row));
    assert_eq!(response.status, 500);
}

#[test]
fn owner_routes_are_the_five_of_the_resource() {
    let table = router();
    let lines: Vec<(Method, &str, Handler)> =
        table.iter().map(|r| (r.method, r.path, r.handler)).collect();
    assert_eq!(
        lines,
        vec![
            (Method::Get, "/owner/:id", Handler::GetOwner),
            (Method::Post, "/owner", Handler::PostOwner),
            (Method::Delete, "/owner/:id", Handler::DeleteOwner),
            (Method::Patch, "/owner/:id/profile", Handler::UpdateProfile),
            (Method::Patch, "/owner/:id/credentials", Handler::UpdateCredentials),
        ]
    );
}

#[test]
fn routes_merge_the_probe_and_the_resource() {
    let table = routes();
    assert_eq!(table.len(), 6);
    assert_eq!(table[0].handler, Handler::HealthCheck);
    assert_eq!(table[0].path, "/health_check");
    assert_eq!(table[1].handler, Handler::GetOwner);
    assert_eq!(table[5].handler, Handler::UpdateCredentials);
}
