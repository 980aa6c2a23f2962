use prisma_core::config::{
    choose_connector, connect_params, ConnectionStringConfig, ConnectorChoice, ExplicitConfig,
    FileConfig, PostgresSource, PrismaDatabase,
};
use prisma_core::connector::{
    decode_rows, transaction_outcome, truncate_plan, write_returned_id, StatementKind,
    TransactionOutcome, WriteCommand,
};
use prisma_core::error::ConnectorError;
use prisma_core::results::{
    ManyNodes, ManyReadQueryResults, QueryArguments, SelectedFields, SelectedScalarField,
    SingleNode, SingleReadQueryResult,
};
use prisma_core::row::{
    to_prisma_row, PrismaRow, TypeIdentifier, WireColumn, WireData, WireRow, WireType,
};
use prisma_core::schema::{PrismaSchema, QueryDocument, Validatable};
use prisma_core::value::{GraphqlId, PrismaValue};

fn text_cell(s: &str) -> WireColumn {
    WireColumn { ty: WireType::Text, data: Some(WireData::Text(s.to_string())) }
}

fn int4_cell(v: i32) -> WireColumn {
    WireColumn { ty: WireType::Int4, data: Some(WireData::I32(v)) }
}

fn int8_cell(v: i64) -> WireColumn {
    WireColumn { ty: WireType::Int8, data: Some(WireData::I64(v)) }
}

#[test]
fn int_column_decodes_via_declared_width() {
    // a 4-byte column goes through the 4-byte path and widens to 64 bits
    let row = WireRow { columns: vec![int4_cell(-5), int4_cell(i32::MAX), int4_cell(i32::MIN)] };
    let idents = vec![TypeIdentifier::Int, TypeIdentifier::Int, TypeIdentifier::Int];
    let decoded = to_prisma_row(&row, &idents).unwrap();
    assert_eq!(
        decoded.values,
        vec![
            PrismaValue::Int(-5),
            PrismaValue::Int(2_147_483_647),
            PrismaValue::Int(-2_147_483_648),
        ]
    );
}

#[test]
fn int_column_of_other_width_is_not_decoded_by_narrow_path() {
    // an 8-byte column carrying a wide value must decode via the 8-byte
    // path; a 4-byte decode of it would truncate and is refused by type
    let row = WireRow { columns: vec![int8_cell(5_000_000_000)] };
    let decoded = to_prisma_row(&row, &vec![TypeIdentifier::Int]).unwrap();
    assert_eq!(decoded.values, vec![PrismaValue::Int(5_000_000_000)]);

    let two_byte = WireRow {
        columns: vec![WireColumn { ty: WireType::Int2, data: Some(WireData::I16(-3)) }],
    };
    let decoded = to_prisma_row(&two_byte, &vec![TypeIdentifier::Int]).unwrap();
    assert_eq!(decoded.values, vec![PrismaValue::Int(-3)]);
}

#[test]
fn null_int_column_is_a_decode_error() {
    let row = WireRow { columns: vec![WireColumn { ty: WireType::Int4, data: None }] };
    assert_eq!(
        to_prisma_row(&row, &vec![TypeIdentifier::Int]),
        Err(ConnectorError::ColumnDecodeFailure(0))
    );
}

#[test]
fn nullable_tags_map_sql_null_to_null() {
    let row = WireRow {
        columns: vec![
            WireColumn { ty: WireType::Text, data: None },
            WireColumn { ty: WireType::Bool, data: None },
            WireColumn { ty: WireType::Timestamp, data: None },
            WireColumn { ty: WireType::Uuid, data: None },
        ],
    };
    let idents = vec![
        TypeIdentifier::String,
        TypeIdentifier::Boolean,
        TypeIdentifier::DateTime,
        TypeIdentifier::UUID,
    ];
    let decoded = to_prisma_row(&row, &idents).unwrap();
    assert_eq!(
        decoded.values,
        vec![PrismaValue::Null, PrismaValue::Null, PrismaValue::Null, PrismaValue::Null]
    );
}

#[test]
fn whole_row_decodes_in_column_order() {
    let row = WireRow {
        columns: vec![
            int8_cell(1),
            text_cell("alice"),
            WireColumn { ty: WireType::Bool, data: Some(WireData::Bool(true)) },
            WireColumn {
                ty: WireType::Timestamp,
                data: Some(WireData::Timestamp(1_558_000_000_000_000)),
            },
            WireColumn { ty: WireType::Json, data: Some(WireData::Json("{}".to_string())) },
        ],
    };
    let idents = vec![
        TypeIdentifier::GraphQLID,
        TypeIdentifier::String,
        TypeIdentifier::Boolean,
        TypeIdentifier::DateTime,
        TypeIdentifier::Json,
    ];
    let decoded = to_prisma_row(&row, &idents).unwrap();
    assert_eq!(
        decoded.values,
        vec![
            PrismaValue::GraphqlId(GraphqlId::Int(1)),
            PrismaValue::String("alice".to_string()),
            PrismaValue::Boolean(true),
            PrismaValue::DateTime(1_558_000_000_000_000),
            PrismaValue::Json("{}".to_string()),
        ]
    );
}

#[test]
fn row_decode_names_the_first_failing_column() {
    let row = WireRow { columns: vec![text_cell("a"), text_cell("b")] };
    // a float tag over a text column cannot decode
    let idents = vec![TypeIdentifier::String, TypeIdentifier::Float];
    assert_eq!(
        to_prisma_row(&row, &idents),
        Err(ConnectorError::ColumnDecodeFailure(1))
    );
    // a missing column is an error too
    let idents = vec![TypeIdentifier::String, TypeIdentifier::String, TypeIdentifier::String];
    assert_eq!(
        to_prisma_row(&row, &idents),
        Err(ConnectorError::ColumnDecodeFailure(2))
    );
}

fn id_row(id: i64) -> PrismaRow {
    PrismaRow {
        values: vec![
            PrismaValue::GraphqlId(GraphqlId::Int(id as usize)),
            PrismaValue::Int(id * 10),
        ],
    }
}

fn many(nodes: Vec<PrismaRow>, first: Option<usize>, last: Option<usize>) -> ManyReadQueryResults {
    ManyReadQueryResults {
        name: "users".to_string(),
        fields: vec!["id".to_string(), "score".to_string()],
        scalars: ManyNodes {
            nodes,
            field_names: vec!["id".to_string(), "score".to_string()],
        },
        nested: vec![],
        lists: vec![],
        query_arguments: QueryArguments { first, last },
        selected_fields: SelectedFields {
            scalar: vec![
                SelectedScalarField { name: "id".to_string(), implicit: true },
                SelectedScalarField { name: "score".to_string(), implicit: false },
            ],
        },
    }
}

#[test]
fn first_bound_drops_one_record_from_the_tail() {
    // 5 fetched records, first = 4: exactly one record falls off the
    // tail and the remaining 4 keep their original order
    let mut result = many(
        vec![id_row(1), id_row(2), id_row(3), id_row(4), id_row(5)],
        Some(4),
        None,
    );
    result.remove_excess_records();
    assert_eq!(
        result.scalars.nodes,
        vec![id_row(1), id_row(2), id_row(3), id_row(4)]
    );
}

#[test]
fn last_bound_reverses_then_drops_one_from_the_head() {
    // 5 fetched records, last = 4: the fetched order is reversed first,
    // then one record falls off the head
    let mut result = many(
        vec![id_row(1), id_row(2), id_row(3), id_row(4), id_row(5)],
        None,
        Some(4),
    );
    result.remove_excess_records();
    assert_eq!(
        result.scalars.nodes,
        vec![id_row(4), id_row(3), id_row(2), id_row(1)]
    );
}

#[test]
fn unexceeded_bounds_trim_nothing() {
    let mut result = many(vec![id_row(1), id_row(2)], Some(2), None);
    result.remove_excess_records();
    assert_eq!(result.scalars.nodes, vec![id_row(1), id_row(2)]);

    let mut result = many(vec![id_row(1), id_row(2)], None, None);
    result.remove_excess_records();
    assert_eq!(result.scalars.nodes, vec![id_row(1), id_row(2)]);

    // last bound not exceeded: records are still reversed
    let mut result = many(vec![id_row(1), id_row(2)], None, Some(2));
    result.remove_excess_records();
    assert_eq!(result.scalars.nodes, vec![id_row(2), id_row(1)]);
}

#[test]
fn find_ids_returns_every_identifier_in_row_order() {
    let result = many(vec![id_row(1), id_row(2), id_row(3)], None, None);
    let ids = result.find_ids().unwrap();
    assert_eq!(
        ids,
        vec![&GraphqlId::Int(1), &GraphqlId::Int(2), &GraphqlId::Int(3)]
    );
}

#[test]
fn find_ids_is_all_or_nothing() {
    // one record's identifier is null: no identifier list at all, even
    // though the other records carry valid identifiers
    let mut nodes = vec![id_row(1), id_row(2), id_row(3), id_row(4), id_row(5)];
    nodes[2] = PrismaRow { values: vec![PrismaValue::Null, PrismaValue::Int(30)] };
    let result = many(nodes, None, None);
    assert_eq!(result.find_ids(), None);
}

#[test]
fn find_ids_needs_an_id_field() {
    let mut result = many(vec![id_row(1)], None, None);
    result.scalars.field_names = vec!["name".to_string(), "score".to_string()];
    assert_eq!(result.find_ids(), None);
}

fn single(scalars: Option<SingleNode>) -> SingleReadQueryResult {
    SingleReadQueryResult {
        name: "user".to_string(),
        fields: vec!["id".to_string()],
        scalars,
        nested: vec![],
        lists: vec![],
        selected_fields: SelectedFields {
            scalar: vec![SelectedScalarField { name: "id".to_string(), implicit: false }],
        },
    }
}

#[test]
fn find_id_reads_the_id_position() {
    let node = SingleNode {
        node: PrismaRow {
            values: vec![
                PrismaValue::String("x".to_string()),
                PrismaValue::GraphqlId(GraphqlId::String("u1".to_string())),
            ],
        },
        field_names: vec!["name".to_string(), "id".to_string()],
    };
    let result = single(Some(node));
    assert_eq!(result.find_id(), Some(&GraphqlId::String("u1".to_string())));
}

#[test]
fn find_id_is_absent_without_record_or_identifier() {
    assert_eq!(single(None).find_id(), None);

    let no_id_field = SingleNode {
        node: PrismaRow { values: vec![PrismaValue::Int(1)] },
        field_names: vec!["count".to_string()],
    };
    assert_eq!(single(Some(no_id_field)).find_id(), None);

    let malformed = SingleNode {
        node: PrismaRow { values: vec![PrismaValue::Int(1)] },
        field_names: vec!["id".to_string()],
    };
    assert_eq!(single(Some(malformed)).find_id(), None);
}

#[test]
fn implicit_fields_are_filtered_in_order() {
    let result = many(vec![], None, None);
    let implicit = result.get_implicit_fields();
    assert_eq!(implicit.len(), 1);
    assert_eq!(implicit[0].name, "id");
    assert!(implicit[0].implicit);

    let explicit_only = single(None);
    assert_eq!(explicit_only.get_implicit_fields().len(), 0);
}

#[test]
fn truncate_defers_constraints_then_deletes_each_table() {
    let tables = vec!["users".to_string(), "posts".to_string(), "tags".to_string()];
    let plan = truncate_plan(&tables);
    assert_eq!(plan.len(), 4);
    assert_eq!(plan[0], WriteCommand::DeferConstraints);
    assert_eq!(plan[1], WriteCommand::DeleteFrom("users".to_string()));
    assert_eq!(plan[2], WriteCommand::DeleteFrom("posts".to_string()));
    assert_eq!(plan[3], WriteCommand::DeleteFrom("tags".to_string()));
}

#[test]
fn truncate_of_no_tables_only_defers() {
    let plan = truncate_plan(&vec![]);
    assert_eq!(plan, vec![WriteCommand::DeferConstraints]);
}

#[test]
fn transaction_commits_exactly_on_success() {
    assert_eq!(transaction_outcome(true), TransactionOutcome::Commit);
    assert_eq!(transaction_outcome(false), TransactionOutcome::RollBack);
}

#[test]
fn insert_returns_last_row_identifier() {
    let returned = vec![
        WireRow { columns: vec![int8_cell(1)] },
        WireRow { columns: vec![int8_cell(7)] },
    ];
    assert_eq!(
        write_returned_id(StatementKind::Insert, &returned),
        Ok(Some(GraphqlId::Int(7)))
    );
}

#[test]
fn insert_with_no_returned_rows_yields_nothing() {
    assert_eq!(write_returned_id(StatementKind::Insert, &vec![]), Ok(None));
}

#[test]
fn non_insert_statements_return_nothing() {
    let returned = vec![WireRow { columns: vec![int8_cell(1)] }];
    assert_eq!(write_returned_id(StatementKind::Other, &returned), Ok(None));
}

#[test]
fn insert_with_undecodable_identifier_is_an_error() {
    let returned = vec![WireRow {
        columns: vec![WireColumn { ty: WireType::Bool, data: Some(WireData::Bool(true)) }],
    }];
    assert_eq!(
        write_returned_id(StatementKind::Insert, &returned),
        Err(ConnectorError::ColumnDecodeFailure(0))
    );
}

#[test]
fn filter_decodes_every_returned_row() {
    let rows = vec![
        WireRow { columns: vec![int8_cell(1), text_cell("a")] },
        WireRow { columns: vec![int8_cell(2), text_cell("b")] },
    ];
    let idents = vec![TypeIdentifier::GraphQLID, TypeIdentifier::String];
    let decoded = decode_rows(&rows, &idents).unwrap();
    assert_eq!(
        decoded,
        vec![
            PrismaRow {
                values: vec![
                    PrismaValue::GraphqlId(GraphqlId::Int(1)),
                    PrismaValue::String("a".to_string()),
                ],
            },
            PrismaRow {
                values: vec![
                    PrismaValue::GraphqlId(GraphqlId::Int(2)),
                    PrismaValue::String("b".to_string()),
                ],
            },
        ]
    );
}

#[test]
fn filter_propagates_the_first_row_failure() {
    let rows = vec![
        WireRow { columns: vec![int8_cell(1)] },
        WireRow { columns: vec![WireColumn { ty: WireType::Int8, data: None }] },
    ];
    let idents = vec![TypeIdentifier::Int];
    assert_eq!(
        decode_rows(&rows, &idents),
        Err(ConnectorError::ColumnDecodeFailure(0))
    );
}

#[test]
fn explicit_config_maps_field_by_field() {
    let db = PrismaDatabase::Explicit(ExplicitConfig {
        connector: "postgres-native".to_string(),
        host: "db.example".to_string(),
        port: 5433,
        user: "root".to_string(),
        password: Some("pw".to_string()),
        limit: 4,
    });
    let params = connect_params(&db).unwrap();
    assert_eq!(
        params.source,
        PostgresSource::Params {
            host: "db.example".to_string(),
            port: 5433,
            user: "root".to_string(),
            password: Some("pw".to_string()),
        }
    );
    assert!(params.ssl_prefer);
    assert_eq!(params.dbname, "prisma");
    assert_eq!(params.limit, 4);
}

#[test]
fn connection_string_config_passes_the_uri_through() {
    let db = PrismaDatabase::ConnectionString(ConnectionStringConfig {
        connector: "postgres-native".to_string(),
        uri: "postgresql://db.example:5432".to_string(),
        limit: 2,
    });
    let params = connect_params(&db).unwrap();
    assert_eq!(
        params.source,
        PostgresSource::Uri("postgresql://db.example:5432".to_string())
    );
    assert_eq!(params.dbname, "prisma");
}

fn file_db(connector: &str, database_file: &str, db_name: &str) -> PrismaDatabase {
    PrismaDatabase::File(FileConfig {
        connector: connector.to_string(),
        database_file: database_file.to_string(),
        db_name: db_name.to_string(),
        limit: 1,
    })
}

#[test]
fn file_config_is_not_a_network_configuration() {
    let r = connect_params(&file_db("sqlite-native", "/data/app.db", "app"));
    match r {
        Err(ConnectorError::DatabaseCreationError(m)) => {
            assert_eq!(m, "Could not understand the configuration format.");
        }
        other => panic!("unexpected result: {:?}", other),
    }
}

#[test]
fn sqlite_choice_derives_the_database_folder() {
    let choice = choose_connector(&file_db("sqlite-native", "/data/app/app.db", "app")).unwrap();
    assert_eq!(
        choice,
        ConnectorChoice::Sqlite { folder: "/data/app".to_string(), limit: 1 }
    );
}

#[test]
fn sqlite_folder_strips_repeated_suffixes() {
    // trailing occurrences of "<name>.db", then trailing separators
    let choice = choose_connector(&file_db("sqlite-native", "/data/m.dbm.db", "m")).unwrap();
    assert_eq!(
        choice,
        ConnectorChoice::Sqlite { folder: "/data".to_string(), limit: 1 }
    );
}

#[test]
fn postgres_choice_for_networked_configurations() {
    let db = PrismaDatabase::ConnectionString(ConnectionStringConfig {
        connector: "postgres-native".to_string(),
        uri: "postgresql://h".to_string(),
        limit: 1,
    });
    assert_eq!(choose_connector(&db).unwrap(), ConnectorChoice::Postgres);
}

#[test]
fn unsupported_connector_is_a_typed_error() {
    let db = PrismaDatabase::ConnectionString(ConnectionStringConfig {
        connector: "mongo-native".to_string(),
        uri: "mongodb://h".to_string(),
        limit: 1,
    });
    assert_eq!(
        choose_connector(&db),
        Err(ConnectorError::UnsupportedConnector("mongo-native".to_string()))
    );
}

#[test]
fn float_and_enum_columns_decode() {
    let row = WireRow {
        columns: vec![
            WireColumn {
                ty: WireType::Float8,
                data: Some(WireData::F64((0.25f64).to_bits())),
            },
            WireColumn { ty: WireType::Float8, data: None },
            text_cell("GREEN"),
        ],
    };
    let idents = vec![TypeIdentifier::Float, TypeIdentifier::Float, TypeIdentifier::Enum];
    let decoded = to_prisma_row(&row, &idents).unwrap();
    assert_eq!(
        decoded.values,
        vec![
            PrismaValue::Float((0.25f64).to_bits()),
            PrismaValue::Null,
            PrismaValue::Enum("GREEN".to_string()),
        ]
    );
}

#[test]
fn default_row_is_empty() {
    let row: PrismaRow = Default::default();
    assert_eq!(row.values.len(), 0);
}

#[test]
fn database_reports_its_connector_name() {
    let db = file_db("sqlite-native", "/data/app.db", "app");
    assert_eq!(db.connector().as_str(), "sqlite-native");
}

#[test]
fn every_document_validates_for_now() {
    let schema = PrismaSchema { source: "type User { id: ID! }".to_string() };
    let doc = QueryDocument { source: "{ users { id } }".to_string() };
    assert!(schema.validate(&doc).is_ok());
}
