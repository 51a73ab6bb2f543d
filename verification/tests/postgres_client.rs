use write_proxy::postgres::{
    parse_db_addr, process_msg, simple_query_frame, startup_frame, BackendMsg, ColumnDesc, Metadata,
};

#[test]
fn simple_query_frame_has_the_wire_shape() {
    let sql = "SELECT 1";
    let v = simple_query_frame(sql).unwrap();
    // 'Q', a 32-bit big-endian length covering everything after the tag,
    // the statement text, and a terminating NUL.
    assert_eq!(v.len(), 1 + 4 + sql.len() + 1);
    assert_eq!(v[0], b'Q');
    let len = u32::from_be_bytes([v[1], v[2], v[3], v[4]]);
    assert_eq!(len as usize, v.len() - 1);
    assert_eq!(&v[5..5 + sql.len()], sql.as_bytes());
    assert_eq!(*v.last().unwrap(), 0);
}

#[test]
fn statements_with_embedded_nul_cannot_be_framed() {
    assert_eq!(simple_query_frame("SELECT '\0'"), None);
}

#[test]
fn startup_frame_announces_the_user() {
    let v = startup_frame("alice").unwrap();
    let len = u32::from_be_bytes([v[0], v[1], v[2], v[3]]);
    assert_eq!(len as usize, v.len());
    // Protocol version 3.0, then "user\0alice\0", then the closing NUL.
    assert_eq!(&v[4..8], &[0x00, 0x03, 0x00, 0x00]);
    let needle = b"user\0alice\0";
    assert!(v.windows(needle.len()).any(|w| w == needle));
    assert_eq!(*v.last().unwrap(), 0);
}

#[test]
fn addresses_parse_into_host_port_and_user() {
    let c = parse_db_addr("postgres://alice@localhost:5432").unwrap();
    assert_eq!(c.host, "localhost");
    assert_eq!(c.port, 5432);
    assert_eq!(c.user, "alice");

    assert!(parse_db_addr("not a url").is_none());
    // No explicit port.
    assert!(parse_db_addr("postgres://localhost").is_none());
}

#[test]
fn data_rows_are_collected_in_order() {
    let mut metadata = Metadata::new();
    let mut rows = Vec::new();
    assert!(process_msg(&mut metadata, &mut rows, BackendMsg::DataRow(vec![1, 2])));
    assert!(process_msg(&mut metadata, &mut rows, BackendMsg::DataRow(vec![3])));
    assert_eq!(rows, vec![vec![1, 2], vec![3]]);
    assert!(metadata.col_names.is_empty());
}

#[test]
fn row_descriptions_extend_the_metadata() {
    let mut metadata = Metadata::new();
    let mut rows = Vec::new();
    let cols = vec![
        ColumnDesc { name: "id".to_string(), type_oid: 23 },
        ColumnDesc { name: "name".to_string(), type_oid: 25 },
    ];
    assert!(process_msg(&mut metadata, &mut rows, BackendMsg::RowDescription(cols)));
    assert_eq!(metadata.col_names, vec!["id".to_string(), "name".to_string()]);
    assert_eq!(metadata.col_types, vec![23, 25]);
    assert!(rows.is_empty());

    let more = vec![ColumnDesc { name: "extra".to_string(), type_oid: 16 }];
    assert!(process_msg(&mut metadata, &mut rows, BackendMsg::RowDescription(more)));
    assert_eq!(metadata.col_names, vec!["id".to_string(), "name".to_string(), "extra".to_string()]);
    assert_eq!(metadata.col_types, vec![23, 25, 16]);
}

#[test]
fn ready_for_query_ends_the_cycle_and_other_messages_are_ignored() {
    let mut metadata = Metadata::new();
    let mut rows = Vec::new();
    assert!(process_msg(&mut metadata, &mut rows, BackendMsg::Other));
    assert!(process_msg(&mut metadata, &mut rows, BackendMsg::ErrorResponse("oops".to_string())));
    assert!(!process_msg(&mut metadata, &mut rows, BackendMsg::ReadyForQuery));
    assert!(metadata.col_names.is_empty());
    assert!(metadata.col_types.is_empty());
    assert!(rows.is_empty());
}
