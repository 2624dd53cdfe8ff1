use luau_lifter::file::data::{Function, List, Module, Range, Value};
use luau_lifter::file::view::{
    add_alias_for_function, add_code_section, add_constant_section, add_function_segment,
    add_string_data, add_string_section, init, Region,
};

fn list<T>(data: Vec<T>, start: usize, end: usize) -> List<T> {
    List { data, range: Range { start, end } }
}

#[test]
fn empty_spans_get_no_section() {
    let mut regions = Vec::new();
    add_string_section(&mut regions, Range { start: 4, end: 4 });
    add_code_section(&mut regions, 0, Range { start: 9, end: 9 });
    add_constant_section(&mut regions, 0, Range { start: 9, end: 3 });
    assert_eq!(regions, vec![]);
    add_string_section(&mut regions, Range { start: 1, end: 4 });
    add_code_section(&mut regions, 2, Range { start: 8, end: 12 });
    add_constant_section(&mut regions, 3, Range { start: 12, end: 13 });
    add_function_segment(&mut regions, Range { start: 5, end: 5 });
    assert_eq!(
        regions,
        vec![
            Region::StringSection { range: Range { start: 1, end: 4 } },
            Region::CodeSection { index: 2, range: Range { start: 8, end: 12 } },
            Region::ConstantSection { index: 3, range: Range { start: 12, end: 13 } },
            Region::FunctionSegment { range: Range { start: 5, end: 5 } },
        ]
    );
}

#[test]
fn strings_are_numbered_from_zero() {
    let mut regions = vec![Region::EntryPoint { address: 1 }];
    let strings = vec![Range { start: 2, end: 5 }, Range { start: 6, end: 6 }];
    add_string_data(&mut regions, &strings);
    add_string_data(&mut regions, &vec![]);
    assert_eq!(
        regions,
        vec![
            Region::EntryPoint { address: 1 },
            Region::StringData { index: 0, range: strings[0] },
            Region::StringData { index: 1, range: strings[1] },
        ]
    );
}

#[test]
fn alias_needs_a_name_in_the_table() {
    let strings = vec![Range { start: 2, end: 5 }, Range { start: 6, end: 9 }];
    let mut regions = Vec::new();
    add_alias_for_function(&mut regions, 0, &strings, 40);
    add_alias_for_function(&mut regions, 3, &strings, 40);
    add_alias_for_function(&mut regions, usize::MAX, &strings, 40);
    assert_eq!(regions, vec![]);
    add_alias_for_function(&mut regions, 2, &strings, 40);
    add_alias_for_function(&mut regions, 1, &strings, 50);
    assert_eq!(
        regions,
        vec![
            Region::Alias { name: strings[1], address: 40 },
            Region::Alias { name: strings[0], address: 50 },
        ]
    );
}

#[test]
fn layout_of_a_module() {
    let strings = vec![Range { start: 2, end: 6 }];
    let first = Function::new(
        Range { start: 8, end: 30 },
        1,
        Range { start: 13, end: 21 },
        list(vec![Value::Nil], 21, 23),
        list(vec![], 23, 24),
    );
    let second = Function::new(
        Range { start: 30, end: 40 },
        0,
        Range { start: 35, end: 35 },
        list(vec![], 35, 35),
        list(vec![], 35, 36),
    );
    let module = Module::new(list(vec![first, second], 7, 40), list(strings.clone(), 1, 6), 1);
    assert_eq!(
        init(&module),
        vec![
            Region::StringSection { range: Range { start: 1, end: 6 } },
            Region::StringData { index: 0, range: strings[0] },
            Region::FunctionSegment { range: Range { start: 8, end: 30 } },
            Region::CodeSection { index: 0, range: Range { start: 13, end: 21 } },
            Region::ConstantSection { index: 0, range: Range { start: 21, end: 23 } },
            Region::Function { address: 13 },
            Region::Alias { name: strings[0], address: 13 },
            Region::FunctionSegment { range: Range { start: 30, end: 40 } },
            Region::Function { address: 35 },
            Region::EntryPoint { address: 35 },
        ]
    );
}

#[test]
fn layout_without_strings() {
    let only = Function::new(
        Range { start: 3, end: 12 },
        5,
        Range { start: 8, end: 8 },
        list(vec![], 8, 9),
        list(vec![], 9, 10),
    );
    let module = Module::new(list(vec![only], 2, 12), list(vec![], 1, 2), 0);
    assert_eq!(
        init(&module),
        vec![
            Region::StringSection { range: Range { start: 1, end: 2 } },
            Region::FunctionSegment { range: Range { start: 3, end: 12 } },
            Region::ConstantSection { index: 0, range: Range { start: 8, end: 9 } },
            Region::Function { address: 8 },
            Region::EntryPoint { address: 8 },
        ]
    );
}
