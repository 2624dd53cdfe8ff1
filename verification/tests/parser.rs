use luau_lifter::file::data::{Range, Value};
use luau_lifter::file::parser::{
    encode_any_size, parse, parse_any_size, parse_constant, parse_u32, parse_u64, parse_u8,
    position_of, FormatError, Stream,
};

fn function_bytes(code: &[u8], constants: &[Vec<u8>], references: &[usize], name: usize) -> Vec<u8> {
    let mut out = vec![10, 2, 1, 0];
    out.extend(encode_any_size(code.len() / 4));
    out.extend_from_slice(code);
    out.extend(encode_any_size(constants.len()));
    for constant in constants {
        out.extend_from_slice(constant);
    }
    out.extend(encode_any_size(references.len()));
    for reference in references {
        out.extend(encode_any_size(*reference));
    }
    out.push(0);
    out.extend(encode_any_size(name));
    out.push(0);
    out.push(0);
    out
}

fn module_bytes(strings: &[&[u8]], functions: &[Vec<u8>], entry: usize) -> Vec<u8> {
    let mut out = vec![3];
    out.extend(encode_any_size(strings.len()));
    for string in strings {
        out.extend(encode_any_size(string.len()));
        out.extend_from_slice(string);
    }
    out.extend(encode_any_size(functions.len()));
    for function in functions {
        out.extend_from_slice(function);
    }
    out.extend(encode_any_size(entry));
    out
}

fn decode_varint(bytes: &[u8]) -> Result<(usize, usize), FormatError> {
    let mut stream = Stream::new(bytes);
    let value = parse_any_size(&mut stream)?;
    Ok((value, position_of(&stream)))
}

#[test]
fn varint_encode_then_decode_is_identity() {
    for value in [0usize, 127, 128, 16384, 1 << 30] {
        let bytes = encode_any_size(value);
        assert_eq!(decode_varint(&bytes), Ok((value, bytes.len())));
    }
}

#[test]
fn varint_encodings() {
    assert_eq!(encode_any_size(0), vec![0x00]);
    assert_eq!(encode_any_size(127), vec![0x7f]);
    assert_eq!(encode_any_size(128), vec![0x80, 0x01]);
    assert_eq!(encode_any_size(300), vec![0xac, 0x02]);
    assert_eq!(encode_any_size(16384), vec![0x80, 0x80, 0x01]);
    assert_eq!(encode_any_size(1 << 30), vec![0x80, 0x80, 0x80, 0x80, 0x04]);
}

#[test]
fn varint_roundtrip_at_the_edges() {
    for value in [1usize, 129, 16383, 0xffff_ffff, usize::MAX, usize::MAX - 1, 1 << 35, 1 << 63] {
        let mut bytes = encode_any_size(value);
        let len = bytes.len();
        bytes.extend_from_slice(&[0xff, 0xff]);
        assert_eq!(decode_varint(&bytes), Ok((value, len)));
    }
}

#[test]
fn varint_stops_at_the_first_byte_without_high_bit() {
    assert_eq!(decode_varint(&[0x05, 0x80, 0x80]), Ok((5, 1)));
    assert_eq!(decode_varint(&[0x80, 0x00]), Ok((0, 2)));
    assert_eq!(decode_varint(&[0xff, 0x00, 0x01]), Ok((127, 2)));
}

#[test]
fn varint_that_runs_off_the_end_is_a_short_read() {
    assert_eq!(decode_varint(&[]), Err(FormatError::ShortRead));
    assert_eq!(decode_varint(&[0x80]), Err(FormatError::ShortRead));
    assert_eq!(decode_varint(&[0xff, 0xff, 0xff]), Err(FormatError::ShortRead));
}

#[test]
fn varint_of_any_length_is_read_and_bits_above_64_are_lost() {
    let mut bytes = vec![0x81; 12];
    bytes.push(0x01);
    let expected: u64 = (0..10).fold(0u64, |acc, i| acc | (1u64 << (7 * i)));
    assert_eq!(decode_varint(&bytes), Ok((expected as usize, 13)));
    let bytes = [0x80, 0x80, 0x80, 0x80, 0x80, 0x80, 0x80, 0x80, 0x80, 0x7f];
    assert_eq!(decode_varint(&bytes), Ok((1usize << 63, 10)));
}

#[test]
fn fixed_width_reads_are_little_endian() {
    let data = [1u8, 2, 3, 4, 5, 6, 7, 8, 9, 10, 11, 12, 13];
    let mut stream = Stream::new(&data);
    assert_eq!(parse_u8(&mut stream), Ok(1));
    assert_eq!(parse_u32(&mut stream), Ok(0x0504_0302));
    assert_eq!(parse_u64(&mut stream), Ok(0x0d0c_0b0a_0908_0706));
    assert_eq!(position_of(&stream), 13);
    assert_eq!(stream.remaining(), 0);
    assert_eq!(parse_u8(&mut stream), Err(FormatError::ShortRead));
}

#[test]
fn fixed_width_reads_fail_short() {
    let data = [1u8, 2, 3];
    let mut stream = Stream::new(&data);
    assert_eq!(parse_u32(&mut stream), Err(FormatError::ShortRead));
    let data = [0u8; 7];
    let mut stream = Stream::new(&data);
    assert_eq!(parse_u64(&mut stream), Err(FormatError::ShortRead));
}

#[test]
fn skip_moves_or_fails() {
    let data = [0u8; 5];
    let mut stream = Stream::new(&data);
    assert_eq!(stream.skip(5), Ok(()));
    assert_eq!(position_of(&stream), 5);
    assert_eq!(stream.skip(0), Ok(()));
    assert_eq!(stream.skip(1), Err(FormatError::ShortRead));
    let mut stream = Stream::new(&data);
    assert_eq!(stream.skip(usize::MAX), Err(FormatError::ShortRead));
}

fn constant(bytes: &[u8]) -> Result<(Value, usize), FormatError> {
    let mut stream = Stream::new(bytes);
    let value = parse_constant(&mut stream)?;
    Ok((value, position_of(&stream)))
}

#[test]
fn constants_of_every_kind() {
    assert_eq!(constant(&[0]), Ok((Value::Nil, 1)));
    assert_eq!(constant(&[1, 0]), Ok((Value::False, 2)));
    assert_eq!(constant(&[1, 1]), Ok((Value::True, 2)));
    assert_eq!(constant(&[1, 200]), Ok((Value::True, 2)));
    let mut number = vec![2];
    number.extend_from_slice(&1.5f64.to_bits().to_le_bytes());
    assert_eq!(constant(&number), Ok((Value::Number(1.5f64.to_bits()), 9)));
    assert_eq!(constant(&[3, 0x85, 0x01]), Ok((Value::String(133), 3)));
    assert_eq!(constant(&[4, 0x78, 0x56, 0x34, 0x12]), Ok((Value::Import(0x1234_5678), 5)));
    assert_eq!(constant(&[5, 3, 9, 0x80, 0x01, 7]), Ok((Value::Table, 6)));
    assert_eq!(constant(&[5, 0]), Ok((Value::Table, 2)));
    assert_eq!(constant(&[6, 2]), Ok((Value::Closure(2), 2)));
}

#[test]
fn unknown_constant_tag_is_rejected() {
    assert_eq!(constant(&[7]), Err(FormatError::UnknownTag));
    assert_eq!(constant(&[255, 0, 0]), Err(FormatError::UnknownTag));
}

#[test]
fn truncated_constants_are_short_reads() {
    assert_eq!(constant(&[]), Err(FormatError::ShortRead));
    assert_eq!(constant(&[1]), Err(FormatError::ShortRead));
    assert_eq!(constant(&[2, 0, 0, 0, 0, 0, 0, 0]), Err(FormatError::ShortRead));
    assert_eq!(constant(&[3, 0x80]), Err(FormatError::ShortRead));
    assert_eq!(constant(&[4, 0, 0, 0]), Err(FormatError::ShortRead));
    assert_eq!(constant(&[5, 2, 1]), Err(FormatError::ShortRead));
    assert_eq!(constant(&[6]), Err(FormatError::ShortRead));
}

#[test]
fn minimal_module() {
    let module = parse(&[3, 0, 0, 0]).expect("the smallest module");
    assert_eq!(module.function_list().data.len(), 0);
    assert_eq!(module.string_list().data.len(), 0);
    assert_eq!(module.function_list().range, Range { start: 2, end: 3 });
    assert_eq!(module.string_list().range, Range { start: 1, end: 2 });
    assert_eq!(module.start_id(), 0);
}

#[test]
fn buffers_shorter_than_the_minimal_module_fail() {
    assert_eq!(parse(&[]).err(), Some(FormatError::ShortRead));
    assert_eq!(parse(&[3]).err(), Some(FormatError::ShortRead));
    assert_eq!(parse(&[3, 0]).err(), Some(FormatError::ShortRead));
    assert_eq!(parse(&[3, 0, 0]).err(), Some(FormatError::ShortRead));
    for a in 0..=255u8 {
        assert!(parse(&[a]).is_err());
        assert!(parse(&[3, a]).is_err());
        assert!(parse(&[3, a, a]).is_err());
    }
}

#[test]
fn wrong_version_is_rejected() {
    assert_eq!(parse(&[2, 0, 0, 0]).err(), Some(FormatError::BadVersion));
    assert_eq!(parse(&[4, 0, 0, 0]).err(), Some(FormatError::BadVersion));
    assert_eq!(parse(&[0]).err(), Some(FormatError::BadVersion));
}

#[test]
fn unknown_tag_fails_the_whole_module() {
    let function = function_bytes(&[0, 0, 0, 0], &[vec![0], vec![9]], &[], 0);
    let bytes = module_bytes(&[], &[function], 0);
    assert_eq!(parse(&bytes).err(), Some(FormatError::UnknownTag));
}

#[test]
fn strings_are_recorded_as_spans() {
    let bytes = module_bytes(&[b"print", b"", b"hello world"], &[], 0);
    let module = parse(&bytes).unwrap();
    let strings = &module.string_list().data;
    assert_eq!(strings.len(), 3);
    assert_eq!(strings[0], Range { start: 3, end: 8 });
    assert_eq!(&bytes[3..8], b"print");
    assert_eq!(strings[1], Range { start: 9, end: 9 });
    assert_eq!(strings[2], Range { start: 10, end: 21 });
    assert_eq!(&bytes[10..21], b"hello world");
    assert_eq!(module.string_list().range, Range { start: 1, end: 21 });
    assert!(strings[1].is_empty());
    assert_eq!(strings[2].len(), 11);
}

#[test]
fn function_spans_constants_and_references() {
    let code = [6u8, 0, 1, 0, 22, 0, 1, 0];
    let first = function_bytes(&code, &[vec![0], vec![3, 1], vec![6, 1]], &[1], 1);
    let second = function_bytes(&[22, 0, 1, 0], &[], &[], 0);
    let bytes = module_bytes(&[b"main"], &[first.clone(), second.clone()], 1);
    let module = parse(&bytes).unwrap();
    let functions = &module.function_list().data;
    assert_eq!(functions.len(), 2);
    let start = 1 + 1 + 1 + 4 + 1;
    let f0 = &functions[0];
    assert_eq!(f0.position(), Range { start, end: start + first.len() });
    assert_eq!(f0.code(), Range { start: start + 5, end: start + 13 });
    assert_eq!(&bytes[f0.code().start..f0.code().end], &code[..]);
    assert_eq!(f0.constant_list().data, vec![Value::Nil, Value::String(1), Value::Closure(1)]);
    assert_eq!(f0.constant_list().range, Range { start: start + 13, end: start + 19 });
    assert_eq!(f0.reference_list().data, vec![1]);
    assert_eq!(f0.reference_list().range, Range { start: start + 19, end: start + 21 });
    assert_eq!(f0.name(), 1);
    let f1 = &functions[1];
    assert_eq!(f1.position().start, f0.position().end);
    assert_eq!(f1.position().end, f1.position().start + second.len());
    assert_eq!(f1.code().len(), 4);
    assert_eq!(f1.name(), 0);
    assert_eq!(module.start_id(), 1);
    assert_eq!(module.entry_point(), f1.code().start as u64);
    assert_eq!(module.function_list().range.start, start - 1);
    assert_eq!(module.function_list().range.end, f1.position().end);
}

#[test]
fn code_lies_inside_position_for_all_parsed_functions() {
    let functions: Vec<Vec<u8>> = (0..6)
        .map(|i| {
            let code = vec![0u8; 4 * i];
            let constants: Vec<Vec<u8>> = (0..i).map(|k| vec![6, k as u8]).collect();
            function_bytes(&code, &constants, &[i, 2 * i], i)
        })
        .collect();
    let bytes = module_bytes(&[b"a", b"bc"], &functions, 3);
    let module = parse(&bytes).unwrap();
    let mut end = 0;
    for function in &module.function_list().data {
        assert!(function.code().start >= function.position().start);
        assert!(function.code().end <= function.position().end);
        assert!(function.position().start >= end);
        end = function.position().end;
    }
    assert_eq!(module.function_list().data.len(), 6);
}

#[test]
fn every_truncation_of_a_module_fails_with_a_short_read() {
    let first = function_bytes(&[6, 0, 1, 0], &[vec![1, 1], vec![5, 2, 1, 2]], &[0], 1);
    let bytes = module_bytes(&[b"name"], &[first], 0);
    assert!(parse(&bytes).is_ok());
    for len in 0..bytes.len() {
        assert_eq!(parse(&bytes[..len]).err(), Some(FormatError::ShortRead), "length {}", len);
    }
}

#[test]
fn bytes_behind_the_module_are_not_looked_at() {
    let mut bytes = module_bytes(&[b"x"], &[], 5);
    bytes.extend_from_slice(&[0xff; 9]);
    let module = parse(&bytes).unwrap();
    assert_eq!(module.start_id(), 5);
    assert_eq!(module.string_list().data.len(), 1);
}

fn function_with_debug(code_words: usize, debug: &[u8]) -> Vec<u8> {
    let mut out = vec![0, 0, 0, 0];
    out.extend(encode_any_size(code_words));
    out.extend(vec![0u8; 4 * code_words]);
    out.extend_from_slice(&[0, 0, 0, 0]);
    out.extend_from_slice(debug);
    out
}

#[test]
fn line_information_is_passed_over() {
    // gap 1 with 5 instructions: 5 offsets and ((5 - 1) >> 1) + 1 = 3 lines
    let mut debug = vec![1, 1];
    debug.extend(vec![0xaa; 5]);
    debug.extend(vec![0xbb; 12]);
    debug.push(0);
    let function = function_with_debug(5, &debug);
    let bytes = module_bytes(&[], &[function.clone()], 0);
    let module = parse(&bytes).unwrap();
    assert_eq!(module.function_list().data[0].position().len(), function.len());
    // one byte less of the line table is a short read
    let mut short = vec![1, 1];
    short.extend(vec![0xaa; 5]);
    short.extend(vec![0xbb; 11]);
    let bytes = module_bytes(&[], &[function_with_debug(5, &short)], 0);
    assert_eq!(parse(&bytes).err(), Some(FormatError::ShortRead));
}

#[test]
fn line_information_intervals() {
    // gap 0: one line for each instruction
    let mut debug = vec![1, 0];
    debug.extend(vec![0; 3]);
    debug.extend(vec![0; 12]);
    debug.push(0);
    let bytes = module_bytes(&[], &[function_with_debug(3, &debug)], 0);
    assert!(parse(&bytes).is_ok());
    // a gap wider than the count: one line
    let mut debug = vec![1, 200];
    debug.extend(vec![0; 3]);
    debug.extend(vec![0; 4]);
    debug.push(0);
    let bytes = module_bytes(&[], &[function_with_debug(3, &debug)], 7);
    assert_eq!(parse(&bytes).unwrap().start_id(), 7);
    // no instruction: no offsets and no lines
    let debug = vec![1, 4, 0];
    let bytes = module_bytes(&[], &[function_with_debug(0, &debug)], 9);
    assert_eq!(parse(&bytes).unwrap().start_id(), 9);
}

#[test]
fn variable_information_is_passed_over() {
    // two locals (name, start, end as varints, register as a byte), three upvalue names
    let debug = vec![0, 1, 2, 1, 0, 0x80, 0x01, 4, 2, 3, 3, 9, 3, 1, 2, 0x81, 0x01];
    let function = function_with_debug(1, &debug);
    let bytes = module_bytes(&[], &[function.clone(), function.clone()], 1);
    let module = parse(&bytes).unwrap();
    let functions = &module.function_list().data;
    assert_eq!(functions.len(), 2);
    assert_eq!(functions[0].position().len(), function.len());
    assert_eq!(functions[1].position().end, bytes.len() - 1);
    assert_eq!(module.start_id(), 1);
}

#[test]
fn code_count_beyond_the_buffer_is_a_short_read() {
    let mut bytes = vec![3, 0, 1, 0, 0, 0, 0];
    bytes.extend(encode_any_size(usize::MAX));
    bytes.extend_from_slice(&[0; 16]);
    assert_eq!(parse(&bytes).err(), Some(FormatError::ShortRead));
    let mut bytes = vec![3];
    bytes.extend(encode_any_size(usize::MAX));
    bytes.extend_from_slice(&[0; 16]);
    assert_eq!(parse(&bytes).err(), Some(FormatError::ShortRead));
}

#[test]
fn lookup_by_address() {
    let first = function_bytes(&[0; 8], &[], &[], 0);
    let second = function_bytes(&[0; 4], &[], &[], 0);
    let third = function_bytes(&[], &[], &[], 0);
    let bytes = module_bytes(&[b"abc"], &[first, second, third], 0);
    let module = parse(&bytes).unwrap();
    let functions = &module.function_list().data;
    assert!(module.by_address(0).is_none());
    assert!(module.by_address(functions[0].position().start as u64 - 1).is_none());
    for function in functions {
        let range = function.position();
        for addr in range.start..range.end {
            let found = module.by_address(addr as u64).expect("a function");
            assert_eq!(found.position(), range);
        }
    }
    assert!(module.by_address(functions[2].position().end as u64).is_none());
    assert!(module.by_address(u64::MAX).is_none());
}
