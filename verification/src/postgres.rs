//! Support for the wire-protocol client used for compatibility testing
//! against an external database: the decode step of its read/response
//! cycle, modelled over a closed enumeration of the message kinds the
//! cycle cares about, plus the trusted frame encoders and address parsing
//! the connection needs. The socket itself lives outside the library.

use vstd::prelude::*;

verus! {

/// Column metadata of a result set: names and type oids, in column order.
pub struct Metadata {
    pub col_names: Vec<String>,
    pub col_types: Vec<u32>,
}

impl Metadata {
    pub fn new() -> (m: Metadata)
        ensures
            m.col_names@.len() == 0,
            m.col_types@.len() == 0,
    {
        Metadata { col_names: Vec::new(), col_types: Vec::new() }
    }
}

/// One column of a row description: its name and its type oid.
pub struct ColumnDesc {
    pub name: String,
    pub type_oid: u32,
}

/// The backend messages the read/response cycle acts on. Every other kind
/// the backend may legitimately send is `Other` and is accepted and
/// ignored by design rather than treated as unreachable.
pub enum BackendMsg {
    /// One data row, as its raw body bytes.
    DataRow(Vec<u8>),
    /// The result set's column descriptions.
    RowDescription(Vec<ColumnDesc>),
    /// The backend reported an error for the current cycle.
    ErrorResponse(String),
    /// The backend is ready for the next query: the cycle is over.
    ReadyForQuery,
    /// Any other message: accepted and ignored.
    Other,
}

/// Process one backend message: a data row is appended to `rows`, a row
/// description appends its columns to `metadata`, and every other message
/// changes nothing. The result says whether the cycle goes on: false
/// exactly on `ReadyForQuery`.
pub fn process_msg(metadata: &mut Metadata, rows: &mut Vec<Vec<u8>>, msg: BackendMsg) -> (more:
    bool)
    ensures
        more == !(msg is ReadyForQuery),
        msg matches BackendMsg::DataRow(body) ==> (final(rows)@ == old(rows)@.push(body)
            && *final(metadata) == *old(metadata)),
        msg matches BackendMsg::RowDescription(cols) ==> ({
            let names0 = old(metadata).col_names@;
            let types0 = old(metadata).col_types@;
            &&& final(metadata).col_names@.len() == names0.len() + cols@.len()
            &&& final(metadata).col_types@.len() == types0.len() + cols@.len()
            &&& forall|t: int|
                0 <= t < names0.len() ==> #[trigger] final(metadata).col_names@[t] == names0[t]
            &&& forall|t: int|
                0 <= t < types0.len() ==> #[trigger] final(metadata).col_types@[t] == types0[t]
            &&& forall|t: int|
                0 <= t < cols@.len() ==> final(metadata).col_names@[names0.len() + t] == (
                #[trigger] cols@[t]).name
            &&& forall|t: int|
                0 <= t < cols@.len() ==> final(metadata).col_types@[types0.len() + t] == (
                #[trigger] cols@[t]).type_oid
            &&& *final(rows) == *old(rows)
        }),
        !(msg is DataRow) && !(msg is RowDescription) ==> (*final(metadata) == *old(metadata)
            && *final(rows) == *old(rows)),
    {
    match msg {
        BackendMsg::DataRow(body) => {
            rows.push(body);
            true
        },
        BackendMsg::RowDescription(cols) => {
            let mut j: usize = 0;
            while j < cols.len()
                invariant
                    j <= cols@.len(),
                    metadata.col_names@.len() == old(metadata).col_names@.len() + j,
                    metadata.col_types@.len() == old(metadata).col_types@.len() + j,
                    forall|t: int|
                        0 <= t < old(metadata).col_names@.len()
                            ==> #[trigger] metadata.col_names@[t] == old(metadata).col_names@[t],
                    forall|t: int|
                        0 <= t < old(metadata).col_types@.len()
                            ==> #[trigger] metadata.col_types@[t] == old(metadata).col_types@[t],
                    forall|t: int|
                        0 <= t < j ==> metadata.col_names@[old(metadata).col_names@.len() + t] == (
                        #[trigger] cols@[t]).name,
                    forall|t: int|
                        0 <= t < j ==> metadata.col_types@[old(metadata).col_types@.len() + t] == (
                        #[trigger] cols@[t]).type_oid,
                decreases cols@.len() - j,
            {
                metadata.col_names.push(cols[j].name.clone());
                metadata.col_types.push(cols[j].type_oid);
                j += 1;
            }
            true
        },
        BackendMsg::ErrorResponse(_) => true,
        BackendMsg::ReadyForQuery => false,
        BackendMsg::Other => true,
    }
}

/// The bytes of the simple-query frame for a statement text.
pub uninterp spec fn query_frame_of(sql: Seq<char>) -> Seq<u8>;

/// Relies on `postgres_protocol::message::frontend::query`: the frame is a
/// function of the statement text alone, begins with the `Q` tag, and the
/// encoder fails only on text with an embedded NUL or too long for the
/// frame's 32-bit length field.
#[verifier::external_body]
fn encode_query(sql: &str) -> (r: Option<Vec<u8>>)
    ensures
        r matches Some(v) ==> (v@ == query_frame_of(sql@) && v@.len() >= 6 && v@[0] == 81u8),
        ((forall|i: int| 0 <= i < sql@.len() ==> sql@[i] != '\0') && sql@.len() < 0x10000000)
            ==> r is Some,
{
    let mut buf = bytes::BytesMut::new();
    match postgres_protocol::message::frontend::query(sql, &mut buf) {
        Ok(()) => Some(buf.to_vec()),
        Err(_) => None,
    }
}

/// The frame to send for a simple query: `None` only when the statement
/// text cannot be framed (an embedded NUL, or text too long for the
/// frame's length field).
pub fn simple_query_frame(sql: &str) -> (r: Option<Vec<u8>>)
    ensures
        r matches Some(v) ==> (v@ == query_frame_of(sql@) && v@.len() >= 6 && v@[0] == 81u8),
        ((forall|i: int| 0 <= i < sql@.len() ==> sql@[i] != '\0') && sql@.len() < 0x10000000)
            ==> r is Some,
{
    encode_query(sql)
}

/// The bytes of the startup frame for a user name.
pub uninterp spec fn startup_frame_of(user: Seq<char>) -> Seq<u8>;

/// Relies on `postgres_protocol::message::frontend::startup_message`, with
/// the single parameter pair `("user", user)`: the frame is a function of
/// the user name alone, and the encoder fails only on a name with an
/// embedded NUL or one too long for the frame's 32-bit length field.
#[verifier::external_body]
fn encode_startup(user: &str) -> (r: Option<Vec<u8>>)
    ensures
        r matches Some(v) ==> (v@ == startup_frame_of(user@) && v@.len() >= 9),
        ((forall|i: int| 0 <= i < user@.len() ==> user@[i] != '\0') && user@.len() < 0x10000000)
            ==> r is Some,
{
    let mut buf = bytes::BytesMut::new();
    match postgres_protocol::message::frontend::startup_message([("user", user)], &mut buf) {
        Ok(()) => Some(buf.to_vec()),
        Err(_) => None,
    }
}

/// The startup frame announcing a user name: `None` only when the name
/// cannot be framed (an embedded NUL, or a name too long for the frame's
/// length field).
pub fn startup_frame(user: &str) -> (r: Option<Vec<u8>>)
    ensures
        r matches Some(v) ==> (v@ == startup_frame_of(user@) && v@.len() >= 9),
        ((forall|i: int| 0 <= i < user@.len() ==> user@[i] != '\0') && user@.len() < 0x10000000)
            ==> r is Some,
{
    encode_startup(user)
}

/// The pieces of a connection address: host, port and user name.
pub struct ConnAddr {
    pub host: String,
    pub port: u16,
    pub user: String,
}

/// What parsing an address text yields: host, port and user name, or
/// nothing when the text is not a URL with a host and a port.
pub uninterp spec fn addr_parts_of(addr: Seq<char>) -> Option<(Seq<char>, u16, Seq<char>)>;

/// Relies on `url::Url::parse` and its `host_str`, `port` and `username`
/// accessors: what they yield is a function of the address text alone.
/// `None` stands for any text the parser rejects, or one without a host
/// or an explicit port.
#[verifier::external_body]
fn parse_addr_parts(addr: &str) -> (r: Option<ConnAddr>)
    ensures
        r matches Some(c) ==> addr_parts_of(addr@) == Some((c.host@, c.port, c.user@)),
        r is None ==> addr_parts_of(addr@) is None,
{
    let url = match url::Url::parse(addr) {
        Ok(u) => u,
        Err(_) => return None,
    };
    let host = match url.host_str() {
        Some(h) => h.to_string(),
        None => return None,
    };
    let port = match url.port() {
        Some(p) => p,
        None => return None,
    };
    Some(ConnAddr { host, port, user: url.username().to_string() })
}

/// Parse a connection address into host, port and user name; `None`
/// exactly when the address has no such reading.
pub fn parse_db_addr(addr: &str) -> (r: Option<ConnAddr>)
    ensures
        r matches Some(c) ==> addr_parts_of(addr@) == Some((c.host@, c.port, c.user@)),
        r is None ==> addr_parts_of(addr@) is None,
{
    parse_addr_parts(addr)
}

} // verus!
