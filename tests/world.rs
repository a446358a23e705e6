use tiki_proto::serialize::Cursor;
use tiki_proto::world::{
    backend_config, pos, BackendConfig, Block, Error as WorldError, Meta, Node, BLOCK_DATA_LEN,
};
use tiki_proto::Error;

/// The decompressed body of a block with the given id and name pairs.
fn body(mappings: &[(u16, &str)], node_data: &[u8]) -> Vec<u8> {
    let mut b = vec![0x01, 0xFF, 0xFF, 0x01, 0x02, 0x03, 0x04, 0x00];
    b.extend_from_slice(&(mappings.len() as u16).to_be_bytes());
    for (id, name) in mappings {
        b.extend_from_slice(&id.to_be_bytes());
        b.extend_from_slice(&(name.len() as u16).to_be_bytes());
        b.extend_from_slice(name.as_bytes());
    }
    b.push(2);
    b.push(2);
    b.extend_from_slice(node_data);
    b
}

fn node_data() -> Vec<u8> {
    let mut d = vec![0u8; BLOCK_DATA_LEN];
    // Node (1, 0, 0) is index 1; node (3, 2, 1) is index 256 + 32 + 3 = 291.
    d[2] = 0x01;
    d[3] = 0x02;
    d[8192 + 1] = 7;
    d[12288 + 1] = 9;
    d[2 * 291 + 1] = 1;
    d[8192 + 291] = 15;
    d
}

fn stored(body: &[u8], version: u8) -> Vec<u8> {
    let mut data = vec![version];
    data.extend_from_slice(&zstd::encode_all(body, 3).unwrap());
    data
}

#[test]
fn block_reads_nodes_and_names() {
    let data = stored(&body(&[(0, "air"), (1, "default:stone")], &node_data()), 29);
    let block = Block::deserialize(&mut Cursor::new(&data)).ok().expect("block");
    assert_eq!(
        block.get_node(pos(1, 0, 0)),
        Node {
            id: 0x0102,
            param1: 7,
            param2: 9
        }
    );
    assert_eq!(
        block.get_node(pos(3, 2, 1)),
        Node {
            id: 1,
            param1: 15,
            param2: 0
        }
    );
    assert_eq!(block.get_node(pos(15, 15, 15)).id, 0);
    assert_eq!(block.name(1), "default:stone");
    assert_eq!(block.name(0), "air");
    assert_eq!(block.id("default:stone"), 1);
    assert_eq!(block.id("air"), 0);
}

#[test]
fn later_mappings_override_earlier_ones() {
    let b = body(&[(5, "a"), (5, "b"), (6, "a")], &node_data());
    let block = Block::from_decompressed(&b).ok().expect("block");
    assert_eq!(block.name(5), "b");
    assert_eq!(block.id("a"), 6);
    assert_eq!(block.id("b"), 5);
}

#[test]
fn old_block_versions_are_refused() {
    let data = stored(&body(&[], &node_data()), 28);
    assert!(matches!(
        Block::deserialize(&mut Cursor::new(&data)),
        Err(Error::UnsupportedBlockVersion(28))
    ));
    assert!(matches!(
        Block::deserialize(&mut Cursor::new(&[])),
        Err(Error::UnexpectedEof)
    ));
}

#[test]
fn corrupt_compression_is_refused() {
    let data = [29u8, 1, 2, 3, 4, 5];
    assert!(matches!(
        Block::deserialize(&mut Cursor::new(&data)),
        Err(Error::Decompression)
    ));
}

#[test]
fn short_node_data_is_eof() {
    let b = body(&[(0, "air")], &[0u8; 100]);
    assert!(matches!(Block::from_decompressed(&b), Err(Error::UnexpectedEof)));
    let data = stored(&b, 29);
    assert!(matches!(
        Block::deserialize(&mut Cursor::new(&data)),
        Err(Error::UnexpectedEof)
    ));
}

#[test]
fn mapping_with_invalid_name_is_refused() {
    let mut b = vec![0, 0, 0, 0, 0, 0, 0, 0, 0, 1];
    b.extend_from_slice(&[0, 4, 0, 1, 0xFF]);
    match Block::from_decompressed(&b) {
        Err(Error::NonUnicodeString(raw)) => assert_eq!(raw, vec![0xFF]),
        _ => panic!("expected NonUnicodeString"),
    }
}

#[test]
fn meta_reads_trimmed_settings() {
    let text = "backend = postgresql\nnot a setting\n  gameid=minetest \r\nbackend=sqlite3\nkey = a=b\n";
    let meta = Meta::parse(text);
    assert_eq!(meta.get_str("backend"), Some("sqlite3"));
    assert_eq!(meta.get_str("gameid"), Some("minetest"));
    assert_eq!(meta.get_str("key"), Some("a=b"));
    assert_eq!(meta.get_str("not a setting"), None);
    assert_eq!(meta.get_str("missing"), None);
}

#[test]
fn empty_meta_has_no_settings() {
    let meta = Meta::parse("");
    assert_eq!(meta.get_str("backend"), None);
    let meta = Meta::parse("= value\n");
    assert_eq!(meta.get_str(""), Some("value"));
}

#[test]
fn backend_is_taken_from_the_settings() {
    let meta = Meta::parse("backend = postgresql\npgsql_connection = host=127.0.0.1 user=tiki\n");
    match backend_config(&meta) {
        Ok(BackendConfig::Postgres { params }) => assert_eq!(params, "host=127.0.0.1 user=tiki"),
        other => panic!("expected Postgres, got {other:?}"),
    }
    assert!(matches!(
        backend_config(&Meta::parse("backend = postgresql\n")),
        Err(WorldError::InvalidMeta(_))
    ));
    assert!(matches!(
        backend_config(&Meta::parse("gameid = minetest\n")),
        Err(WorldError::InvalidMeta(_))
    ));
    match backend_config(&Meta::parse("backend = sqlite3\n")) {
        Err(WorldError::UnsupportedBackend(name)) => assert_eq!(name, "sqlite3"),
        other => panic!("expected UnsupportedBackend, got {other:?}"),
    }
}
