use miniwasm::decode::check_export_index;
use miniwasm::decode::check_type_index;
use miniwasm::decode::run;
use miniwasm::decode::Module;
use miniwasm::error::DecodeError;
use miniwasm::error::HeaderField;
use miniwasm::varint::encode_var_u32;

const HEADER: [u8; 8] = [0x00, 0x61, 0x73, 0x6d, 0x01, 0x00, 0x00, 0x00];

/// One section: id byte, varint payload size, payload.
fn section(id: u8, payload: &[u8]) -> Vec<u8> {
    let mut out = vec![id];
    out.extend_from_slice(&encode_var_u32(payload.len() as u32));
    out.extend_from_slice(payload);
    out
}

/// A Type section holding one signature: no parameters, one i32 result.
fn type_section_one_sig() -> Vec<u8> {
    section(1, &[0x01, 0x60, 0x00, 0x01, 0x7f])
}

/// A Function section declaring `n` functions, all of type 0.
fn func_section(n: u8) -> Vec<u8> {
    let mut payload = vec![n];
    for _ in 0..n {
        payload.push(0x00);
    }
    section(3, &payload)
}

/// An Export section with one function export named "f" of index 0.
fn export_section() -> Vec<u8> {
    section(7, &[0x01, 0x01, b'f', 0x00, 0x00])
}

/// One size-prefixed function body with no locals and the given code.
fn body(code: &[u8]) -> Vec<u8> {
    let mut out = encode_var_u32(code.len() as u32 + 1);
    out.push(0x00);
    out.extend_from_slice(code);
    out
}

/// A whole module whose Code section holds the given bodies.
fn module_with_bodies(bodies: &[Vec<u8>]) -> Vec<u8> {
    let mut code_payload = encode_var_u32(bodies.len() as u32);
    for b in bodies {
        code_payload.extend_from_slice(b);
    }
    let mut m = HEADER.to_vec();
    m.extend_from_slice(&type_section_one_sig());
    m.extend_from_slice(&func_section(bodies.len() as u8));
    m.extend_from_slice(&export_section());
    m.extend_from_slice(&section(10, &code_payload));
    m
}

/// The canonical fixture: one exported function of no parameters and one
/// i32 result whose body is `i32.const 1; i32.const 2; i32.add; end`,
/// framed with padded five-byte section sizes as real producers emit them.
fn canonical_fixture() -> Vec<u8> {
    vec![
        0, 97, 115, 109, 1, 0, 0, 0, 1, 133, 128, 128, 128, 0, 1, 96, 0, 1, 127, 3, 130, 128,
        128, 128, 0, 1, 0, 7, 135, 128, 128, 128, 0, 1, 3, 97, 100, 100, 0, 0, 10, 141, 128, 128,
        128, 0, 1, 135, 128, 128, 128, 0, 0, 65, 1, 65, 2, 106, 11,
    ]
}

#[test]
fn header_ok_advances_by_eight() {
    let m = Module::new(HEADER.to_vec());
    let mut cur: usize = 0;
    assert_eq!(m.check_header(&mut cur), Ok(()));
    assert_eq!(cur, 8);
}

#[test]
fn header_bad_magic_is_named() {
    let mut bytes = HEADER.to_vec();
    bytes[1] = b'x';
    let m = Module::new(bytes);
    let mut cur: usize = 0;
    assert_eq!(
        m.check_header(&mut cur),
        Err(DecodeError::HeaderError { field: HeaderField::Magic })
    );
    assert_eq!(cur, 0);
}

#[test]
fn header_bad_version_is_named() {
    let mut bytes = HEADER.to_vec();
    bytes[7] = 0x02;
    let m = Module::new(bytes);
    let mut cur: usize = 0;
    assert_eq!(
        m.check_header(&mut cur),
        Err(DecodeError::HeaderError { field: HeaderField::Version })
    );
    assert_eq!(cur, 0);
}

#[test]
fn header_short_buffer_is_out_of_bounds() {
    let m = Module::new(vec![0x00, 0x61, 0x73]);
    let mut cur: usize = 0;
    assert_eq!(m.check_header(&mut cur), Err(DecodeError::OutOfBounds));
    assert_eq!(cur, 0);
}

#[test]
fn section_header_mismatch_reports_both_ids() {
    // The Type section decoder meets a Function section id.
    let mut bytes = HEADER.to_vec();
    bytes.extend_from_slice(&func_section(0));
    let m = Module::new(bytes);
    assert_eq!(
        m.call_func(0),
        Err(DecodeError::UnexpectedSection { found: 3, expected: 1 })
    );
}

#[test]
fn index_checks_accept_below_count_only() {
    assert_eq!(check_type_index(0, 1), Ok(()));
    assert_eq!(check_type_index(4, 5), Ok(()));
    assert_eq!(check_type_index(1, 1), Err(DecodeError::InvalidTypeIndex));
    assert_eq!(check_type_index(7, 5), Err(DecodeError::InvalidTypeIndex));
    assert_eq!(check_type_index(0, 0), Err(DecodeError::InvalidTypeIndex));
    assert_eq!(check_export_index(0, 1), Ok(()));
    assert_eq!(check_export_index(4, 5), Ok(()));
    assert_eq!(check_export_index(1, 1), Err(DecodeError::InvalidExportIndex));
    assert_eq!(check_export_index(0, 0), Err(DecodeError::InvalidExportIndex));
}

#[test]
fn declaration_type_index_at_count_is_fatal() {
    // One type, but the single declaration names type index 1.
    let mut bytes = HEADER.to_vec();
    bytes.extend_from_slice(&type_section_one_sig());
    bytes.extend_from_slice(&section(3, &[0x01, 0x01]));
    let m = Module::new(bytes);
    assert_eq!(m.call_func(0), Err(DecodeError::InvalidTypeIndex));
}

#[test]
fn export_func_index_at_count_is_fatal() {
    // One declared function, but the export names function index 1.
    let mut bytes = HEADER.to_vec();
    bytes.extend_from_slice(&type_section_one_sig());
    bytes.extend_from_slice(&func_section(1));
    bytes.extend_from_slice(&section(7, &[0x01, 0x01, b'f', 0x00, 0x01]));
    let m = Module::new(bytes);
    assert_eq!(m.call_func(0), Err(DecodeError::InvalidExportIndex));
}

#[test]
fn missing_code_section_is_fatal() {
    // After the exports a stray Type section id stands where Code must be.
    let mut bytes = HEADER.to_vec();
    bytes.extend_from_slice(&type_section_one_sig());
    bytes.extend_from_slice(&func_section(1));
    bytes.extend_from_slice(&export_section());
    bytes.push(1);
    bytes.push(0);
    let m = Module::new(bytes);
    assert_eq!(m.call_func(0), Err(DecodeError::MissingCodeSection));
}

#[test]
fn unsupported_type_form_is_tolerated() {
    // A form tag other than 0x60 is tolerated: decoding goes on, since the
    // field layout of this subset is the same either way.
    let mut bytes = HEADER.to_vec();
    bytes.extend_from_slice(&section(1, &[0x01, 0x5f, 0x00, 0x01, 0x7f]));
    bytes.extend_from_slice(&func_section(1));
    bytes.extend_from_slice(&export_section());
    bytes.extend_from_slice(&section(10, &{
        let mut p = vec![0x01];
        p.extend_from_slice(&body(&[0x41, 0x07, 0x0b]));
        p
    }));
    let m = Module::new(bytes);
    assert_eq!(m.call_func(0), Ok(Some(7)));
}

#[test]
fn nonzero_export_kind_is_tolerated() {
    let mut bytes = HEADER.to_vec();
    bytes.extend_from_slice(&type_section_one_sig());
    bytes.extend_from_slice(&func_section(1));
    bytes.extend_from_slice(&section(7, &[0x01, 0x01, b'g', 0x02, 0x00]));
    bytes.extend_from_slice(&section(10, &{
        let mut p = vec![0x01];
        p.extend_from_slice(&body(&[0x41, 0x09, 0x0b]));
        p
    }));
    let m = Module::new(bytes);
    assert_eq!(m.call_func(0), Ok(Some(9)));
}

#[test]
fn end_to_end_canonical_fixture() {
    assert_eq!(run(canonical_fixture(), 0), Ok(Some(3)));
}

#[test]
fn end_to_end_built_module() {
    let bytes = module_with_bodies(&[body(&[0x41, 0x01, 0x41, 0x02, 0x6a, 0x0b])]);
    assert_eq!(run(bytes, 0), Ok(Some(3)));
}

#[test]
fn out_of_range_target_yields_none() {
    assert_eq!(run(canonical_fixture(), 5), Ok(None));
    let bytes = module_with_bodies(&[body(&[0x41, 0x01, 0x0b])]);
    assert_eq!(run(bytes.clone(), 1), Ok(None));
    assert_eq!(run(bytes, 1000), Ok(None));
}

#[test]
fn skip_selects_second_body() {
    // The first body would fault if interpreted; skipping it by its declared
    // size must land exactly on the second body, which returns 11.
    let first = body(&[0xff, 0xff, 0xff]);
    let second = body(&[0x41, 0x0b, 0x0b]);
    let bytes = module_with_bodies(&[first, second]);
    assert_eq!(run(bytes, 1), Ok(Some(11)));
}

#[test]
fn skip_advances_by_declared_size() {
    // A body of declared size 3 viewed in isolation: skipping leaves the
    // cursor just past those bytes, where the next body's size field sits.
    let m = Module::new(vec![0x03, 0xaa, 0xbb, 0xcc, 0x07]);
    let mut cur: usize = 0;
    assert_eq!(m.decode_func_body(false, &mut cur), Ok(None));
    assert_eq!(cur, 4);
}

#[test]
fn skip_past_end_is_out_of_bounds() {
    // The first body claims more bytes than the module holds.
    let first = body(&[0xff, 0xff, 0xff, 0xff, 0xff, 0xff, 0xff]);
    let truncated = {
        let mut bytes = module_with_bodies(&[first]);
        bytes.truncate(bytes.len() - 5);
        bytes
    };
    assert_eq!(run(truncated, 1), Err(DecodeError::OutOfBounds));
}

#[test]
fn interpreter_fault_surfaces_through_run() {
    let bytes = module_with_bodies(&[body(&[0x0b])]);
    assert_eq!(run(bytes, 0), Err(DecodeError::StackUnderflow));
    let bytes2 = module_with_bodies(&[body(&[0xfe, 0x0b])]);
    assert_eq!(run(bytes2, 0), Err(DecodeError::UnknownOpcode { byte: 0xfe }));
}

#[test]
fn run_is_deterministic() {
    let bytes = canonical_fixture();
    assert_eq!(run(bytes.clone(), 0), run(bytes, 0));
}
