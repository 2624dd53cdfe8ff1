use super::data::{function_views, FunctionView, Module, ModuleView, Range};
use vstd::prelude::*;

verus! {

/// The span as a pair of addresses.
pub fn to_range_u64(old: Range) -> (range: core::ops::Range<u64>)
    ensures
        range.start == old.start,
        range.end == old.end,
{
    old.start as u64..old.end as u64
}

/// One thing that the address space of a loaded module is given.
#[derive(Clone, Copy, PartialEq, Eq, Structural, Debug)]
pub enum Region {
    /// A readable segment of data over the table of strings, and a section
    /// of read-only data over it.
    StringSection { range: Range },
    /// The bytes of the string with the given index, counted from 0.
    StringData { index: usize, range: Range },
    /// A readable and executable segment over a whole function.
    FunctionSegment { range: Range },
    /// A section of read-only code over the instructions of a function.
    CodeSection { index: usize, range: Range },
    /// A section of read-only data over the constants of a function.
    ConstantSection { index: usize, range: Range },
    /// A function that starts at the address.
    Function { address: u64 },
    /// A name for the function at the address: the string with the span.
    Alias { name: Range, address: u64 },
    EntryPoint { address: u64 },
}

/// The regions of the first `count` strings, in order.
pub open spec fn string_regions(strings: Seq<Range>, count: nat) -> Seq<Region>
    decreases count,
{
    if count == 0 {
        Seq::empty()
    } else {
        string_regions(strings, (count - 1) as nat).push(
            Region::StringData { index: (count - 1) as usize, range: strings[count - 1] },
        )
    }
}

/// The section over a span, where the span is not empty.
pub open spec fn section(range: Range, region: Region) -> Seq<Region> {
    if range.spec_len() == 0 {
        Seq::empty()
    } else {
        seq![region]
    }
}

/// The name of a function, where its debug name is the place of a string
/// of the table, counted from 1.
pub open spec fn alias(name: usize, strings: Seq<Range>, address: u64) -> Seq<Region> {
    if 1 <= name <= strings.len() {
        seq![Region::Alias { name: strings[name - 1], address }]
    } else {
        Seq::empty()
    }
}

/// The regions of the function with the given index: its segment, the
/// sections over its code and its constants where they are not empty, the
/// function itself and its name where it has one.
pub open spec fn function_regions(index: usize, function: FunctionView, strings: Seq<Range>) -> Seq<
    Region,
> {
    let address = function.code.start as u64;
    seq![Region::FunctionSegment { range: function.position }] + section(
        function.code,
        Region::CodeSection { index, range: function.code },
    ) + section(
        function.constants_range,
        Region::ConstantSection { index, range: function.constants_range },
    ) + seq![Region::Function { address }] + alias(function.name, strings, address)
}

/// The regions of the first `count` functions, in order.
pub open spec fn functions_regions(
    functions: Seq<FunctionView>,
    strings: Seq<Range>,
    count: nat,
) -> Seq<Region>
    decreases count,
{
    if count == 0 {
        Seq::empty()
    } else {
        functions_regions(functions, strings, (count - 1) as nat) + function_regions(
            (count - 1) as usize,
            functions[count - 1],
            strings,
        )
    }
}

/// Everything that the address space is given for a module, in order: the
/// table of strings and each string, each function, and the entry point,
/// which is the first instruction of the entry function.
pub open spec fn regions(module: ModuleView) -> Seq<Region> {
    section(module.strings_range, Region::StringSection { range: module.strings_range })
        + string_regions(module.strings, module.strings.len()) + functions_regions(
        module.functions,
        module.strings,
        module.functions.len(),
    ) + seq![
        Region::EntryPoint {
            address: module.functions[module.start_id as int].code.start as u64,
        },
    ]
}

pub fn add_string_section(regions: &mut Vec<Region>, range: Range)
    ensures
        final(regions)@ == old(regions)@ + section(range, Region::StringSection { range }),
{
    if range.is_empty() {
        assert(regions@ =~= old(regions)@ + Seq::<Region>::empty());
        return ;
    }
    regions.push(Region::StringSection { range });
    assert(regions@ =~= old(regions)@ + seq![Region::StringSection { range }]);
}

pub fn add_string_data(regions: &mut Vec<Region>, data: &Vec<Range>)
    ensures
        final(regions)@ == old(regions)@ + string_regions(data@, data@.len()),
{
    let mut index: usize = 0;
    assert(regions@ =~= old(regions)@ + string_regions(data@, 0));
    while index < data.len()
        invariant
            index <= data.len(),
            regions@ == old(regions)@ + string_regions(data@, index as nat),
        decreases data.len() - index,
    {
        regions.push(Region::StringData { index, range: data[index] });
        assert(regions@ =~= old(regions)@ + string_regions(data@, (index + 1) as nat));
        index = index + 1;
    }
}

pub fn add_function_segment(regions: &mut Vec<Region>, position: Range)
    ensures
        final(regions)@ == old(regions)@.push(Region::FunctionSegment { range: position }),
{
    regions.push(Region::FunctionSegment { range: position });
}

pub fn add_code_section(regions: &mut Vec<Region>, index: usize, code: Range)
    ensures
        final(regions)@ == old(regions)@ + section(code, Region::CodeSection { index, range: code }),
{
    if code.is_empty() {
        assert(regions@ =~= old(regions)@ + Seq::<Region>::empty());
        return ;
    }
    regions.push(Region::CodeSection { index, range: code });
    assert(regions@ =~= old(regions)@ + seq![Region::CodeSection { index, range: code }]);
}

pub fn add_constant_section(regions: &mut Vec<Region>, index: usize, constant: Range)
    ensures
        final(regions)@ == old(regions)@ + section(
            constant,
            Region::ConstantSection { index, range: constant },
        ),
{
    if constant.is_empty() {
        assert(regions@ =~= old(regions)@ + Seq::<Region>::empty());
        return ;
    }
    regions.push(Region::ConstantSection { index, range: constant });
    assert(regions@ =~= old(regions)@ + seq![
        Region::ConstantSection { index, range: constant },
    ]);
}

pub fn add_alias_for_function(
    regions: &mut Vec<Region>,
    name: usize,
    data: &Vec<Range>,
    start: u64,
)
    ensures
        final(regions)@ == old(regions)@ + alias(name, data@, start),
{
    if name == 0 || name - 1 >= data.len() {
        assert(regions@ =~= old(regions)@ + Seq::<Region>::empty());
        return ;
    }
    let range = data[name - 1];
    regions.push(Region::Alias { name: range, address: start });
    assert(regions@ =~= old(regions)@ + seq![Region::Alias { name: range, address: start }]);
}

/// Lays out a module. The entry function has to be one of the module.
pub fn init(args: &Module) -> (laid_out: Vec<Region>)
    requires
        args@.start_id < args@.functions.len(),
    ensures
        laid_out@ == regions(args@),
{
    let mut laid_out: Vec<Region> = Vec::new();
    let str_list = args.string_list();
    add_string_section(&mut laid_out, str_list.range);
    add_string_data(&mut laid_out, &str_list.data);
    let ghost head = laid_out@;
    let functions = &args.function_list().data;
    let mut index: usize = 0;
    assert(laid_out@ =~= head + functions_regions(args@.functions, args@.strings, 0));
    while index < functions.len()
        invariant
            index <= functions.len(),
            function_views(functions@) == args@.functions,
            str_list.data@ == args@.strings,
            laid_out@ == head + functions_regions(args@.functions, args@.strings, index as nat),
        decreases functions.len() - index,
    {
        let func = &functions[index];
        let ghost before = laid_out@;
        let constant = func.constant_list().range;
        let inst = func.code().start as u64;
        add_function_segment(&mut laid_out, func.position());
        add_code_section(&mut laid_out, index, func.code());
        add_constant_section(&mut laid_out, index, constant);
        laid_out.push(Region::Function { address: inst });
        add_alias_for_function(&mut laid_out, func.name(), &str_list.data, inst);
        proof {
            assert(func@ == args@.functions[index as int]);
            assert(laid_out@ =~= before + function_regions(index, func@, args@.strings));
            assert(laid_out@ =~= head + functions_regions(
                args@.functions,
                args@.strings,
                (index + 1) as nat,
            ));
        }
        index = index + 1;
    }
    laid_out.push(Region::EntryPoint { address: args.entry_point() });
    laid_out
}

} // verus!
