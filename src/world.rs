//! Map blocks as the world database stores them, and the world's `world.mt`
//! settings.
use vstd::prelude::*;

use vstd::utf8::{decode_utf8, encode_utf8};

use crate::serialize::{from_be16, from_be32, Cursor, Serialize};
use crate::Error as DecodeError;
use crate::ErrorView;

verus! {

broadcast use vstd::utf8::encode_utf8_decode_utf8, vstd::utf8::encode_utf8_valid_utf8;

/// Nodes along each edge of a block.
pub const BLOCK_SIZE: usize = 16;

/// Nodes in a block.
pub const NODE_COUNT: usize = 4096;

/// Bytes of node data in a block: a 16-bit content id, then two parameter bytes.
pub const BLOCK_DATA_LEN: usize = 16384;

/// Oldest block format that can be read.
pub const MIN_BLOCK_VERSION: u8 = 29;

/// A node position inside a block, or a block position in the world.
#[derive(Clone, Copy, Debug, PartialEq, Eq, Structural)]
pub struct Pos {
    pub x: i32,
    pub y: i32,
    pub z: i32,
}

pub fn pos(x: i32, y: i32, z: i32) -> (r: Pos)
    ensures
        r == (Pos { x, y, z }),
{
    Pos { x, y, z }
}

/// Numeric content id of a node.
pub type NodeId = u16;

/// One node of a block.
#[derive(Clone, Copy, Debug, PartialEq, Eq, Structural)]
pub struct Node {
    pub id: NodeId,
    pub param1: u8,
    pub param2: u8,
}

/// A decoded map block.
pub struct Block {
    flags: u8,
    lighting_complete: u16,
    timestamp: u32,
    block_data: Vec<u8>,
    /// Content id and name pairs, in the order they were read.
    mappings: Vec<(NodeId, String)>,
}

/// The mathematical value of a [`Block`].
pub struct BlockView {
    pub flags: u8,
    pub lighting_complete: u16,
    pub timestamp: u32,
    pub block_data: Seq<u8>,
    pub mappings: Seq<(u16, Seq<char>)>,
}

impl View for Block {
    type V = BlockView;

    closed spec fn view(&self) -> BlockView {
        BlockView {
            flags: self.flags,
            lighting_complete: self.lighting_complete,
            timestamp: self.timestamp,
            block_data: self.block_data@,
            mappings: self.mappings@.map_values(|m: (NodeId, String)| (m.0, m.1@)),
        }
    }
}

/// The name that `id` was last given in `mappings`, if any.
pub open spec fn name_of(mappings: Seq<(u16, Seq<char>)>, id: u16) -> Option<Seq<char>>
    decreases mappings.len(),
{
    if mappings.len() == 0 {
        None
    } else if mappings.last().0 == id {
        Some(mappings.last().1)
    } else {
        name_of(mappings.drop_last(), id)
    }
}

/// The id that `name` was last given in `mappings`, if any.
pub open spec fn id_of(mappings: Seq<(u16, Seq<char>)>, name: Seq<char>) -> Option<u16>
    decreases mappings.len(),
{
    if mappings.len() == 0 {
        None
    } else if mappings.last().1 == name {
        Some(mappings.last().0)
    } else {
        id_of(mappings.drop_last(), name)
    }
}

/// Offset of the node at (x, y, z) in each plane of the node data.
pub open spec fn node_index(x: int, y: int, z: int) -> int {
    256 * z + 16 * y + x
}

/// The node at index `i` of node data `data`.
pub open spec fn node_at(data: Seq<u8>, i: int) -> Node {
    Node {
        id: ((data[2 * i] as u16) << 8u16) | (data[2 * i + 1] as u16),
        param1: data[2 * NODE_COUNT + i],
        param2: data[3 * NODE_COUNT + i],
    }
}

/// Reading one id and name pair off the front of `data`.
pub open spec fn mapping_decoding(data: Seq<u8>) -> Result<((u16, Seq<char>), int), ErrorView> {
    if data.len() < 2 {
        Err(ErrorView::UnexpectedEof)
    } else {
        match String::decoding(data.skip(2)) {
            Ok((name, n)) => Ok(((from_be16(data), name), 2 + n)),
            Err(e) => Err(e),
        }
    }
}

/// Reading `count` id and name pairs off the front of `data`.
pub open spec fn mappings_decoding(data: Seq<u8>, count: nat) -> Result<
    (Seq<(u16, Seq<char>)>, int),
    ErrorView,
>
    decreases count,
{
    if count == 0 {
        Ok((Seq::empty(), 0))
    } else {
        match mappings_decoding(data, (count - 1) as nat) {
            Err(e) => Err(e),
            Ok((ms, n)) => match mapping_decoding(data.skip(n)) {
                Err(e) => Err(e),
                Ok((m, k)) => Ok((ms.push(m), n + k)),
            },
        }
    }
}

/// Bytes of the header in front of the mappings: flags, lighting, timestamp,
/// mapping version and mapping count.
pub open spec fn mappings_start() -> int {
    10
}

/// Reading the decompressed part of a block.
pub open spec fn block_decoding(data: Seq<u8>) -> Result<BlockView, ErrorView> {
    if data.len() < mappings_start() {
        Err(ErrorView::UnexpectedEof)
    } else {
        match mappings_decoding(data.skip(mappings_start()), from_be16(data.skip(8)) as nat) {
            Err(e) => Err(e),
            Ok((ms, n)) => {
                // The content and parameter widths are skipped, and may be missing.
                let rest = data.skip(mappings_start() + n);
                let widths = if rest.len() < 2 {
                    rest.len() as int
                } else {
                    2
                };
                let node_data = rest.skip(widths);
                if node_data.len() < BLOCK_DATA_LEN {
                    Err(ErrorView::UnexpectedEof)
                } else {
                    Ok(
                        BlockView {
                            flags: data[0],
                            lighting_complete: from_be16(data.skip(1)),
                            timestamp: from_be32(data.skip(3)),
                            block_data: node_data.take(BLOCK_DATA_LEN as int),
                            mappings: ms,
                        },
                    )
                }
            },
        }
    }
}

impl Block {
    #[verifier::type_invariant]
    closed spec fn inv(&self) -> bool {
        self.block_data@.len() == BLOCK_DATA_LEN
    }

    /// The node at `pos`, which must lie inside the block.
    pub fn get_node(&self, pos: Pos) -> (r: Node)
        requires
            0 <= pos.x < BLOCK_SIZE,
            0 <= pos.y < BLOCK_SIZE,
            0 <= pos.z < BLOCK_SIZE,
        ensures
            r == node_at(self@.block_data, node_index(pos.x as int, pos.y as int, pos.z as int)),
    {
        proof {
            use_type_invariant(self);
        }
        let index: usize = BLOCK_SIZE * BLOCK_SIZE * pos.z as usize + BLOCK_SIZE * pos.y as usize
            + pos.x as usize;
        let id_hi = self.block_data[2 * index] as u16;
        let id_lo = self.block_data[2 * index + 1] as u16;
        Node {
            id: (id_hi << 8u16) | id_lo,
            param1: self.block_data[2 * NODE_COUNT + index],
            param2: self.block_data[3 * NODE_COUNT + index],
        }
    }

    /// The name of content id `id`, which the block must map.
    pub fn name(&self, id: u16) -> (r: &str)
        requires
            name_of(self@.mappings, id) is Some,
        ensures
            Some(r@) == name_of(self@.mappings, id),
    {
        let ghost ms = self@.mappings;
        let mut i: usize = self.mappings.len();
        assert(ms.take(i as int) =~= ms);
        while i > 0
            invariant
                i <= ms.len(),
                ms == self@.mappings,
                name_of(ms.take(i as int), id) == name_of(ms, id),
            decreases i,
        {
            assert(ms.take(i as int).drop_last() =~= ms.take(i - 1));
            if self.mappings[i - 1].0 == id {
                return self.mappings[i - 1].1.as_str();
            }
            i = i - 1;
        }
        assert(false);
        ""
    }

    /// The content id named `name`, which the block must map.
    pub fn id(&self, name: &str) -> (r: u16)
        requires
            id_of(self@.mappings, name@) is Some,
        ensures
            Some(r) == id_of(self@.mappings, name@),
    {
        let ghost ms = self@.mappings;
        let mut i: usize = self.mappings.len();
        assert(ms.take(i as int) =~= ms);
        while i > 0
            invariant
                i <= ms.len(),
                ms == self@.mappings,
                id_of(ms.take(i as int), name@) == id_of(ms, name@),
            decreases i,
        {
            assert(ms.take(i as int).drop_last() =~= ms.take(i - 1));
            if str_eq(self.mappings[i - 1].1.as_str(), name) {
                return self.mappings[i - 1].0;
            }
            i = i - 1;
        }
        assert(false);
        0
    }
}

/// A failure at some count of id and name pairs stays the same failure when
/// more pairs are asked for.
pub proof fn lemma_mappings_error_persists(data: Seq<u8>, k: nat, count: nat)
    requires
        k <= count,
        mappings_decoding(data, k) is Err,
    ensures
        mappings_decoding(data, count) == mappings_decoding(data, k),
    decreases count - k,
{
    if k < count {
        lemma_mappings_error_persists(data, k, (count - 1) as nat);
    }
}

/// What zstd makes of `data`: the decompressed bytes, or nothing when `data` is
/// no valid zstd stream.
pub uninterp spec fn zstd_decoded(data: Seq<u8>) -> Option<Seq<u8>>;

/// Relies on `zstd::decode_all`, which reads `data` through a zstd `Decoder` to
/// its end; what comes out, or whether it fails, depends on the bytes alone.
#[verifier::external_body]
fn zstd_decode(data: &[u8]) -> (r: Option<Vec<u8>>)
    ensures
        match r {
            Some(v) => zstd_decoded(data@) == Some(v@),
            None => zstd_decoded(data@) is None,
        },
{
    zstd::decode_all(data).ok()
}

impl Block {
    /// Reads a stored block: a version byte, then the zstd-compressed body.
    pub fn deserialize(r: &mut Cursor) -> (res: Result<Block, DecodeError>)
        ensures
            old(r).rest().len() == 0 ==> (res matches Err(e) && e@ == ErrorView::UnexpectedEof),
            old(r).rest().len() > 0 && old(r).rest()[0] < MIN_BLOCK_VERSION ==> (res matches Err(e)
                && e@ == ErrorView::UnsupportedBlockVersion(old(r).rest()[0])),
            old(r).rest().len() > 0 && old(r).rest()[0] >= MIN_BLOCK_VERSION ==> match zstd_decoded(
                old(r).rest().skip(1),
            ) {
                None => res matches Err(e) && e@ == ErrorView::Decompression,
                Some(body) => match block_decoding(body) {
                    Ok(v) => res matches Ok(b) && b@ == v,
                    Err(e) => res matches Err(x) && x@ == e,
                },
            },
    {
        let version = u8::deserialize(r)?;
        if version < MIN_BLOCK_VERSION {
            return Self::deserialize_before_v29(r, version);
        }
        let n = r.remaining();
        let compressed = r.read_exact(n)?;
        proof {
            assert(compressed@ =~= old(r).rest().skip(1));
        }
        match zstd_decode(compressed.as_slice()) {
            Some(body) => Self::from_decompressed(body.as_slice()),
            None => Err(DecodeError::Decompression),
        }
    }

    /// Formats before version 29 are not read.
    fn deserialize_before_v29(r: &mut Cursor, version: u8) -> (res: Result<Block, DecodeError>)
        ensures
            res matches Err(e) && e@ == ErrorView::UnsupportedBlockVersion(version),
    {
        Err(DecodeError::UnsupportedBlockVersion(version))
    }

    /// Reads the decompressed body of a block: header, id and name pairs, and
    /// node data.
    pub fn from_decompressed(data: &[u8]) -> (res: Result<Block, DecodeError>)
        ensures
            match block_decoding(data@) {
                Ok(v) => res matches Ok(b) && b@ == v,
                Err(e) => res matches Err(x) && x@ == e,
            },
    {
        let mut r = Cursor::new(data);
        let ghost d = data@;
        let flags = u8::deserialize(&mut r)?;
        let lighting_complete = u16::deserialize(&mut r)?;
        let timestamp = u32::deserialize(&mut r)?;
        let _mapping_version = u8::deserialize(&mut r)?;
        let count = u16::deserialize(&mut r)?;
        proof {
            assert(d.skip(1).skip(2) =~= d.skip(3));
            assert(d.skip(3).skip(4) =~= d.skip(7));
            assert(d.skip(7).skip(1) =~= d.skip(8));
            assert(d.skip(8).skip(2) =~= d.skip(10));
        }
        let ghost m = d.skip(10);
        let mut mappings: Vec<(NodeId, String)> = Vec::new();
        let ghost mut consumed: int = 0;
        let mut i: u16 = 0;
        assert(mappings@.map_values(|m: (NodeId, String)| (m.0, m.1@)) =~= Seq::<
            (u16, Seq<char>),
        >::empty());
        while i < count
            invariant
                d == data@,
                m == d.skip(10),
                d.len() >= 10,
                i <= count,
                count == from_be16(d.skip(8)),
                0 <= consumed <= m.len(),
                r.rest() == m.skip(consumed),
                mappings_decoding(m, i as nat) == Ok::<(Seq<(u16, Seq<char>)>, int), ErrorView>(
                    (mappings@.map_values(|m: (NodeId, String)| (m.0, m.1@)), consumed),
                ),
            decreases count - i,
        {
            let ghost before = r.rest();
            let id = match u16::deserialize(&mut r) {
                Ok(id) => id,
                Err(e) => {
                    proof {
                        lemma_mappings_error_persists(m, (i + 1) as nat, count as nat);
                    }
                    return Err(e);
                },
            };
            let ghost mid = r.rest();
            let name = match String::deserialize(&mut r) {
                Ok(name) => name,
                Err(e) => {
                    proof {
                        assert(before.skip(2) =~= mid);
                        lemma_mappings_error_persists(m, (i + 1) as nat, count as nat);
                    }
                    return Err(e);
                },
            };
            proof {
                assert forall|k: int| 0 <= k <= before.skip(2).len() implies #[trigger] before.skip(
                    2,
                ).skip(k) =~= before.skip(2 + k) by {}
                assert forall|k: int| 0 <= k <= m.skip(consumed).len() implies #[trigger] m.skip(
                    consumed,
                ).skip(k) =~= m.skip(consumed + k) by {}
                consumed = consumed + (before.len() - r.rest().len());
            }
            let ghost old_mappings = mappings@;
            mappings.push((id, name));
            i = i + 1;
            proof {
                let view_of = |m: (NodeId, String)| (m.0, m.1@);
                assert(mappings@.map_values(view_of) =~= old_mappings.map_values(view_of).push(
                    (id, name@),
                ));
            }
        }
        proof {
            assert forall|k: int| 0 <= k <= d.len() - 10 implies #[trigger] d.skip(10).skip(k)
                =~= d.skip(10 + k) by {}
        }
        let ghost rest = r.rest();
        let _content_width = r.read_byte();
        let _params_width = r.read_byte();
        proof {
            let widths = if rest.len() < 2 {
                rest.len() as int
            } else {
                2
            };
            assert(r.rest() =~= rest.skip(widths));
        }
        let block_data = r.read_exact(BLOCK_DATA_LEN)?;
        Ok(Block { flags, lighting_complete, timestamp, block_data, mappings })
    }
}

/// The lines of `s`, in order, as `str::lines` cuts them.
pub uninterp spec fn lines_of(s: Seq<char>) -> Seq<Seq<char>>;

/// `s` without leading and trailing whitespace, as `str::trim` leaves it.
pub uninterp spec fn trimmed(s: Seq<char>) -> Seq<char>;

/// The text before and after the first `=` of `s`, if it has one.
pub open spec fn split_at_eq(s: Seq<char>) -> Option<(Seq<char>, Seq<char>)>
    decreases s.len(),
{
    if s.len() == 0 {
        None
    } else if s[0] == '=' {
        Some((Seq::empty(), s.skip(1)))
    } else {
        match split_at_eq(s.skip(1)) {
            Some((k, v)) => Some((seq![s[0]] + k, v)),
            None => None,
        }
    }
}

/// Relies on `str::lines`: the lines of `s`, in order.
#[verifier::external_body]
fn lines(s: &str) -> (r: Vec<&str>)
    ensures
        r@.map_values(|l: &str| l@) == lines_of(s@),
{
    s.lines().collect()
}

/// Relies on `str::split_once` with a character pattern: it cuts at the first
/// match and drops it.
#[verifier::external_body]
fn split_once_eq(s: &str) -> (r: Option<(&str, &str)>)
    ensures
        match r {
            Some((k, v)) => split_at_eq(s@) == Some((k@, v@)),
            None => split_at_eq(s@) is None,
        },
{
    s.split_once('=')
}

/// Relies on `str::trim`.
#[verifier::external_body]
fn trim(s: &str) -> (r: &str)
    ensures
        r@ == trimmed(s@),
{
    s.trim()
}

/// The setting that a `world.mt` line holds: the trimmed text around its
/// first `=`. A line without `=` holds none.
pub open spec fn meta_entry(line: Seq<char>) -> Option<(Seq<char>, Seq<char>)> {
    match split_at_eq(line) {
        Some((k, v)) => Some((trimmed(k), trimmed(v))),
        None => None,
    }
}

/// The settings that `lines` hold, in order.
pub open spec fn meta_entries(lines: Seq<Seq<char>>) -> Seq<(Seq<char>, Seq<char>)>
    decreases lines.len(),
{
    if lines.len() == 0 {
        Seq::empty()
    } else {
        let before = meta_entries(lines.drop_last());
        match meta_entry(lines.last()) {
            Some(e) => before.push(e),
            None => before,
        }
    }
}

/// The value last given to `key` in `entries`, if any.
pub open spec fn meta_lookup(entries: Seq<(Seq<char>, Seq<char>)>, key: Seq<char>) -> Option<
    Seq<char>,
>
    decreases entries.len(),
{
    if entries.len() == 0 {
        None
    } else if entries.last().0 == key {
        Some(entries.last().1)
    } else {
        meta_lookup(entries.drop_last(), key)
    }
}

/// The settings of a world, from its `world.mt` file.
pub struct Meta {
    data: Vec<(String, String)>,
}

/// The mathematical value of a [`Meta`]: its settings in file order; a later
/// one overrides an earlier one with the same key.
pub struct MetaView {
    pub entries: Seq<(Seq<char>, Seq<char>)>,
}

impl View for Meta {
    type V = MetaView;

    closed spec fn view(&self) -> MetaView {
        MetaView { entries: self.data@.map_values(|e: (String, String)| (e.0@, e.1@)) }
    }
}

impl Meta {
    /// Reads `key = value` lines; lines without `=` are skipped.
    pub fn parse(text: &str) -> (r: Meta)
        ensures
            r@.entries == meta_entries(lines_of(text@)),
    {
        let all = lines(text);
        let ghost ls = all@.map_values(|l: &str| l@);
        let mut data: Vec<(String, String)> = Vec::new();
        let mut i: usize = 0;
        while i < all.len()
            invariant
                ls == all@.map_values(|l: &str| l@),
                ls == lines_of(text@),
                i <= all@.len(),
                data@.map_values(|e: (String, String)| (e.0@, e.1@)) == meta_entries(
                    ls.take(i as int),
                ),
            decreases all@.len() - i,
        {
            let ghost before = data@;
            assert(ls.take(i + 1).drop_last() =~= ls.take(i as int));
            assert(ls.take(i + 1).last() == all@[i as int]@);
            if let Some((key, value)) = split_once_eq(all[i]) {
                let key = trim(key).to_owned();
                let value = trim(value).to_owned();
                data.push((key, value));
                assert(data@.map_values(|e: (String, String)| (e.0@, e.1@)) =~= before.map_values(
                    |e: (String, String)| (e.0@, e.1@),
                ).push((key@, value@)));
            }
            i = i + 1;
        }
        assert(ls.take(i as int) =~= ls);
        Meta { data }
    }

    /// The value last given to `key`, if any.
    pub fn get_str(&self, key: &str) -> (r: Option<&str>)
        ensures
            match r {
                Some(v) => meta_lookup(self@.entries, key@) == Some(v@),
                None => meta_lookup(self@.entries, key@) is None,
            },
    {
        let ghost es = self@.entries;
        let mut i: usize = self.data.len();
        assert(es.take(i as int) =~= es);
        while i > 0
            invariant
                i <= es.len(),
                es == self@.entries,
                meta_lookup(es.take(i as int), key@) == meta_lookup(es, key@),
            decreases i,
        {
            assert(es.take(i as int).drop_last() =~= es.take(i - 1));
            if str_eq(self.data[i - 1].0.as_str(), key) {
                return Some(self.data[i - 1].1.as_str());
            }
            i = i - 1;
        }
        None
    }
}

/// Why a world could not be opened or read.
#[derive(Debug)]
pub enum Error {
    /// The database refused the connection.
    Connection(String),
    /// The database refused a query.
    DatabaseQuery(String),
    /// A stored block could not be decoded.
    Serialization(DecodeError),
    /// `world.mt` lacks a setting that is needed.
    InvalidMeta(String),
    /// `world.mt` names a backend that is not supported.
    UnsupportedBackend(String),
}

/// Where a world's blocks are stored, as its settings say.
#[derive(Debug)]
pub enum BackendConfig {
    /// A PostgreSQL database, reached with these connection parameters.
    Postgres { params: String },
}

/// Picks the storage backend that a world's settings name: `backend` must be
/// set, and `postgresql` needs `pgsql_connection` too.
pub fn backend_config(meta: &Meta) -> (r: Result<BackendConfig, Error>)
    ensures
        match meta_lookup(meta@.entries, "backend"@) {
            None => r matches Err(Error::InvalidMeta(_)),
            Some(name) => if name == "postgresql"@ {
                match meta_lookup(meta@.entries, "pgsql_connection"@) {
                    None => r matches Err(Error::InvalidMeta(_)),
                    Some(p) => r matches Ok(BackendConfig::Postgres { params }) && params@ == p,
                }
            } else {
                r matches Err(Error::UnsupportedBackend(n)) && n@ == name
            },
        },
{
    let backend_name = match meta.get_str("backend") {
        Some(name) => name,
        None => return Err(Error::InvalidMeta("no backend specified".to_owned())),
    };
    if str_eq(backend_name, "postgresql") {
        match meta.get_str("pgsql_connection") {
            Some(params) => Ok(BackendConfig::Postgres { params: params.to_owned() }),
            None => Err(Error::InvalidMeta("no PostgreSQL connection specified".to_owned())),
        }
    } else {
        Err(Error::UnsupportedBackend(backend_name.to_owned()))
    }
}

/// Whether two texts are equal, compared byte by byte.
pub fn str_eq(a: &str, b: &str) -> (r: bool)
    ensures
        r == (a@ == b@),
{
    let x = a.as_bytes();
    let y = b.as_bytes();
    if x.len() != y.len() {
        return false;
    }
    let mut i: usize = 0;
    while i < x.len()
        invariant
            x@ == encode_utf8(a@),
            y@ == encode_utf8(b@),
            x@.len() == y@.len(),
            i <= x@.len(),
            forall|j: int| 0 <= j < i ==> x@[j] == y@[j],
        decreases x@.len() - i,
    {
        if x[i] != y[i] {
            return false;
        }
        i = i + 1;
    }
    proof {
        assert(x@ =~= y@);
        assert(decode_utf8(encode_utf8(a@)) == a@);
        assert(decode_utf8(encode_utf8(b@)) == b@);
    }
    true
}

} // verus!
