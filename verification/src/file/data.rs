use std::cmp::Ordering;
use vstd::prelude::*;

verus! {

/// A half-open span of byte offsets, `start` included and `end` excluded.
#[derive(Clone, Copy, PartialEq, Eq, Structural, Debug)]
pub struct Range {
    pub start: usize,
    pub end: usize,
}

impl Range {
    pub open spec fn spec_contains(self, value: u64) -> bool {
        self.start <= value < self.end
    }

    pub open spec fn spec_len(self) -> usize {
        if self.start <= self.end {
            (self.end - self.start) as usize
        } else {
            0
        }
    }

    #[verifier::when_used_as_spec(spec_len)]
    pub fn len(self) -> (len: usize)
        ensures
            len == self.spec_len(),
    {
        if self.start <= self.end {
            self.end - self.start
        } else {
            0
        }
    }

    pub fn is_empty(self) -> (empty: bool)
        ensures
            empty <==> self.spec_len() == 0,
    {
        self.start >= self.end
    }
}

impl View for Range {
    type V = Range;

    open spec fn view(&self) -> Range {
        *self
    }
}

impl Default for Range {
    fn default() -> (range: Range)
        ensures
            range == (Range { start: 0, end: 0 }),
    {
        Range { start: 0, end: 0 }
    }
}

/// Parsed items together with the span of the file they were read from.
pub struct List<T> {
    pub data: Vec<T>,
    pub range: Range,
}

impl<T> Default for List<T> {
    fn default() -> (list: List<T>)
        ensures
            list.data@.len() == 0,
            list.range == (Range { start: 0, end: 0 }),
    {
        List { data: Vec::new(), range: Range { start: 0, end: 0 } }
    }
}

/// A constant of a function.
#[derive(Clone, Copy, PartialEq, Eq, Structural, Debug)]
pub enum Value {
    Nil,
    False,
    True,
    /// The bit pattern of a double.
    Number(u64),
    /// A string by its place in the string table, counted from 1; 0 is no
    /// string.
    String(usize),
    /// A function by its index in the module.
    Closure(usize),
    /// A packed chain of constant indices.
    Import(u32),
    Table,
}

impl View for Value {
    type V = Value;

    open spec fn view(&self) -> Value {
        *self
    }
}

impl Default for Value {
    fn default() -> (value: Value)
        ensures
            value == Value::Nil,
    {
        Value::Nil
    }
}

/// What a `Function` holds.
pub struct FunctionView {
    pub position: Range,
    pub name: usize,
    pub code: Range,
    pub constants: Seq<Value>,
    pub constants_range: Range,
    pub references: Seq<usize>,
    pub references_range: Range,
}

impl FunctionView {
    /// The instruction stream lies inside the span of the whole prototype.
    pub open spec fn code_in_position(self) -> bool {
        self.position.start <= self.code.start <= self.code.end <= self.position.end
    }
}

pub struct Function {
    position: Range,
    name: usize,
    code: Range,
    constant_list: List<Value>,
    reference_list: List<usize>,
}

impl View for Function {
    type V = FunctionView;

    closed spec fn view(&self) -> FunctionView {
        FunctionView {
            position: self.position,
            name: self.name,
            code: self.code,
            constants: self.constant_list.data@,
            constants_range: self.constant_list.range,
            references: self.reference_list.data@,
            references_range: self.reference_list.range,
        }
    }
}

impl Function {
    pub fn new(
        position: Range,
        name: usize,
        code: Range,
        constant_list: List<Value>,
        reference_list: List<usize>,
    ) -> (function: Function)
        ensures
            function@ == (FunctionView {
                position,
                name,
                code,
                constants: constant_list.data@,
                constants_range: constant_list.range,
                references: reference_list.data@,
                references_range: reference_list.range,
            }),
    {
        Function { position, name, code, constant_list, reference_list }
    }

    /// The span of the whole prototype, debug information included.
    pub fn position(&self) -> (position: Range)
        ensures
            position == self@.position,
    {
        self.position
    }

    /// The place of the debug name in the string table, counted from 1; 0 is
    /// no name.
    pub fn name(&self) -> (name: usize)
        ensures
            name == self@.name,
    {
        self.name
    }

    /// The span of the instruction stream.
    pub fn code(&self) -> (code: Range)
        ensures
            code == self@.code,
    {
        self.code
    }

    pub fn constant_list(&self) -> (list: &List<Value>)
        ensures
            list.data@ == self@.constants,
            list.range == self@.constants_range,
    {
        &self.constant_list
    }

    pub fn reference_list(&self) -> (list: &List<usize>)
        ensures
            list.data@ == self@.references,
            list.range == self@.references_range,
    {
        &self.reference_list
    }
}

impl Default for Function {
    fn default() -> (function: Function)
        ensures
            function@ == (FunctionView {
                position: Range { start: 0, end: 0 },
                name: 0,
                code: Range { start: 0, end: 0 },
                constants: Seq::empty(),
                constants_range: Range { start: 0, end: 0 },
                references: Seq::empty(),
                references_range: Range { start: 0, end: 0 },
            }),
    {
        let function = Function {
            position: Range { start: 0, end: 0 },
            name: 0,
            code: Range { start: 0, end: 0 },
            constant_list: List { data: Vec::new(), range: Range { start: 0, end: 0 } },
            reference_list: List { data: Vec::new(), range: Range { start: 0, end: 0 } },
        };
        assert(function@.constants =~= Seq::empty());
        assert(function@.references =~= Seq::empty());
        function
    }
}

/// What a `Module` holds.
pub struct ModuleView {
    pub functions: Seq<FunctionView>,
    pub functions_range: Range,
    pub strings: Seq<Range>,
    pub strings_range: Range,
    pub start_id: usize,
}

/// The functions follow each other in the file: each span is well formed and
/// ends before the next one starts.
pub open spec fn in_file_order(functions: Seq<FunctionView>) -> bool {
    &&& forall|i: int|
        0 <= i < functions.len() ==> (#[trigger] functions[i]).position.start
            <= functions[i].position.end
    &&& forall|i: int, j: int|
        0 <= i < j < functions.len() ==> (#[trigger] functions[i]).position.end <= (
        #[trigger] functions[j]).position.start
}

impl ModuleView {
    /// Whether the span of the function with index `i` holds `addr`.
    pub open spec fn holds(self, i: int, addr: u64) -> bool {
        0 <= i < self.functions.len() && self.functions[i].position.spec_contains(addr)
    }

    /// Whether the function with index `i` is the first whose span holds
    /// `addr`.
    pub open spec fn first_holds(self, i: int, addr: u64) -> bool {
        self.holds(i, addr) && forall|j: int| 0 <= j < i ==> !self.holds(j, addr)
    }

    /// The first function whose span holds `addr`, if there is one. In a
    /// parsed module no two spans overlap, so it is the only one.
    pub open spec fn by_address(self, addr: u64) -> Option<FunctionView> {
        if exists|i: int| self.first_holds(i, addr) {
            Some(self.functions[choose|i: int| self.first_holds(i, addr)])
        } else {
            None
        }
    }

    /// The span of the string with the given place in the string table,
    /// counted from 1.
    pub open spec fn string(self, index: usize) -> Option<Range> {
        if 1 <= index <= self.strings.len() {
            Some(self.strings[index - 1])
        } else {
            None
        }
    }
}

/// What the functions hold, one after the other.
pub open spec fn function_views(functions: Seq<Function>) -> Seq<FunctionView> {
    functions.map_values(|f: Function| f@)
}

pub struct Module {
    function_list: List<Function>,
    string_list: List<Range>,
    start_id: usize,
    /// Whether the functions were found to lie in file order.
    in_order: bool,
}

impl View for Module {
    type V = ModuleView;

    closed spec fn view(&self) -> ModuleView {
        ModuleView {
            functions: function_views(self.function_list.data@),
            functions_range: self.function_list.range,
            strings: self.string_list.data@,
            strings_range: self.string_list.range,
            start_id: self.start_id,
        }
    }
}

/// Where a span lies, seen from an offset: `Greater` where it starts behind
/// the offset, `Less` where it ends at or before it, `Equal` where it holds
/// it.
pub fn cmp_range_to_usize(range: Range, value: usize) -> (order: Ordering)
    ensures
        order == Ordering::Greater <==> range.start > value,
        order == Ordering::Less <==> range.start <= value && range.end <= value,
        order == Ordering::Equal <==> range.start <= value < range.end,
{
    if range.start > value {
        Ordering::Greater
    } else if range.end <= value {
        Ordering::Less
    } else {
        Ordering::Equal
    }
}

impl Module {
    #[verifier::type_invariant]
    closed spec fn inv(self) -> bool {
        self.in_order ==> in_file_order(function_views(self.function_list.data@))
    }

    pub fn new(function_list: List<Function>, string_list: List<Range>, start_id: usize) -> (module:
        Module)
        ensures
            module@ == (ModuleView {
                functions: function_views(function_list.data@),
                functions_range: function_list.range,
                strings: string_list.data@,
                strings_range: string_list.range,
                start_id,
            }),
    {
        let in_order = is_in_file_order(&function_list.data);
        Module { function_list, string_list, start_id, in_order }
    }

    pub fn function_list(&self) -> (list: &List<Function>)
        ensures
            function_views(list.data@) == self@.functions,
            list.range == self@.functions_range,
    {
        &self.function_list
    }

    pub fn string_list(&self) -> (list: &List<Range>)
        ensures
            list.data@ == self@.strings,
            list.range == self@.strings_range,
    {
        &self.string_list
    }

    /// The index of the entry function.
    pub fn start_id(&self) -> (index: usize)
        ensures
            index == self@.start_id,
    {
        self.start_id
    }

    /// The address of the first instruction of the entry function, which
    /// has to be one of the module.
    pub fn entry_point(&self) -> (addr: u64)
        requires
            self@.start_id < self@.functions.len(),
        ensures
            addr == self@.functions[self@.start_id as int].code.start,
    {
        let func = &self.function_list.data[self.start_id];
        func.code().start as u64
    }

    /// The function whose span holds `addr`. Where the functions lie in
    /// file order, as those of a parsed module do, it is found by
    /// bisection; else the first that holds `addr` is looked for.
    pub fn by_address(&self, addr: u64) -> (found: Option<&Function>)
        ensures
            match found {
                Some(function) => self@.by_address(addr) == Some(function@),
                None => self@.by_address(addr) is None,
            },
    {
        proof {
            use_type_invariant(self);
        }
        if self.in_order {
            self.bisect(addr)
        } else {
            self.scan(addr)
        }
    }

    fn scan(&self, addr: u64) -> (found: Option<&Function>)
        ensures
            match found {
                Some(function) => self@.by_address(addr) == Some(function@),
                None => self@.by_address(addr) is None,
            },
    {
        let list = &self.function_list.data;
        let mut index: usize = 0;
        while index < list.len()
            invariant
                index <= list.len(),
                self@.functions == function_views(list@),
                forall|j: int| 0 <= j < index ==> !self@.holds(j, addr),
            decreases list.len() - index,
        {
            let function = &list[index];
            let position = function.position();
            proof {
                lemma_view_at(list@, index);
            }
            if position.start as u64 <= addr && addr < position.end as u64 {
                proof {
                    lemma_found(self@, index, addr);
                }
                return Some(function);
            }
            index = index + 1;
        }
        proof {
            lemma_absent(self@, addr);
        }
        None
    }

    fn bisect(&self, addr: u64) -> (found: Option<&Function>)
        requires
            in_file_order(self@.functions),
        ensures
            match found {
                Some(function) => self@.by_address(addr) == Some(function@),
                None => self@.by_address(addr) is None,
            },
    {
        let list = &self.function_list.data;
        let ghost views = self@.functions;
        let value = match usize::try_from(addr) {
            Ok(value) => value,
            Err(_) => {
                proof {
                    lemma_beyond(self@, addr);
                }
                return None;
            },
        };
        let mut low: usize = 0;
        let mut high: usize = list.len();
        while low < high
            invariant
                low <= high <= list.len(),
                views == function_views(list@),
                views == self@.functions,
                in_file_order(views),
                value == addr,
                all_before(views, low, addr),
                all_after(views, high, addr),
            decreases high - low,
        {
            let mid = low + (high - low) / 2;
            let function = &list[mid];
            proof {
                lemma_view_at(list@, mid);
            }
            match cmp_range_to_usize(function.position(), value) {
                Ordering::Less => {
                    proof {
                        lemma_all_before(views, mid, addr);
                    }
                    low = mid + 1;
                },
                Ordering::Greater => {
                    proof {
                        lemma_all_after(views, mid, addr);
                    }
                    high = mid;
                },
                Ordering::Equal => {
                    proof {
                        lemma_only(self@, mid, addr);
                        lemma_found(self@, mid, addr);
                    }
                    return Some(function);
                },
            }
        }
        proof {
            lemma_between(self@, low, high, addr);
        }
        None
    }
}

/// Whether the functions lie in file order: each span well formed and
/// ending before the next one starts.
fn is_in_file_order(functions: &Vec<Function>) -> (in_order: bool)
    ensures
        in_order <==> in_file_order(function_views(functions@)),
{
    let ghost views = function_views(functions@);
    let mut index: usize = 0;
    let mut end: usize = 0;
    while index < functions.len()
        invariant
            index <= functions.len(),
            views == function_views(functions@),
            in_file_order(views.take(index as int)),
            index > 0 ==> views[index - 1].position.end == end,
        decreases functions.len() - index,
    {
        let position = functions[index].position();
        proof {
            lemma_view_at(functions@, index);
        }
        if position.start > position.end || (index > 0 && end > position.start) {
            proof {
                if position.start <= position.end {
                    lemma_out_of_order(views, index, end);
                }
            }
            return false;
        }
        proof {
            let front = views.take(index as int);
            let longer = views.take(index + 1);
            assert forall|i: int, j: int| 0 <= i < j < longer.len() implies (
            #[trigger] longer[i]).position.end <= (#[trigger] longer[j]).position.start by {
                if j < index {
                    assert(front[i].position.end <= front[j].position.start);
                } else if i < index - 1 {
                    assert(front[i].position.end <= front[index - 1].position.start);
                    assert(front[index - 1].position.start <= front[index - 1].position.end);
                }
            }
            assert forall|i: int| 0 <= i < longer.len() implies (#[trigger] longer[i]).position.start
                <= longer[i].position.end by {
                if i < index {
                    assert(front[i].position.start <= front[i].position.end);
                }
            }
        }
        end = position.end;
        index = index + 1;
    }
    assert(views.take(index as int) =~= views);
    true
}

/// Where a span starts before an earlier one has ended, the functions are
/// not in file order.
proof fn lemma_out_of_order(views: Seq<FunctionView>, index: usize, end: usize)
    requires
        0 < index < views.len(),
        views[index - 1].position.end == end,
        end > views[index as int].position.start,
    ensures
        !in_file_order(views),
{
    assert(views[index - 1].position.end > views[index as int].position.start);
}

/// Every function below index `bound` ends at or before `addr`.
spec fn all_before(views: Seq<FunctionView>, bound: usize, addr: u64) -> bool {
    forall|i: int| 0 <= i < bound && i < views.len() ==> (#[trigger] views[i]).position.end <= addr
}

/// Every function from index `bound` on starts after `addr`.
spec fn all_after(views: Seq<FunctionView>, bound: usize, addr: u64) -> bool {
    forall|i: int| bound <= i < views.len() ==> (#[trigger] views[i]).position.start > addr
}

proof fn lemma_view_at(functions: Seq<Function>, index: usize)
    requires
        index < functions.len(),
    ensures
        function_views(functions)[index as int] == functions[index as int]@,
{
}

proof fn lemma_all_before(views: Seq<FunctionView>, mid: usize, addr: u64)
    requires
        in_file_order(views),
        mid < views.len(),
        views[mid as int].position.end <= addr,
    ensures
        all_before(views, (mid + 1) as usize, addr),
{
    assert forall|i: int| 0 <= i < mid + 1 && i < views.len() implies (#[trigger] views[i]).position.end
        <= addr by {
        if i < mid {
            assert(views[i].position.end <= views[mid as int].position.start);
        }
    }
}

proof fn lemma_all_after(views: Seq<FunctionView>, mid: usize, addr: u64)
    requires
        in_file_order(views),
        mid < views.len(),
        views[mid as int].position.start > addr,
    ensures
        all_after(views, mid, addr),
{
    assert forall|i: int| mid <= i < views.len() implies (#[trigger] views[i]).position.start
        > addr by {
        if i > mid {
            assert(views[mid as int].position.end <= views[i].position.start);
        }
    }
}

/// Among functions in file order, one that holds `addr` is the first that
/// does.
proof fn lemma_only(module: ModuleView, mid: usize, addr: u64)
    requires
        in_file_order(module.functions),
        module.holds(mid as int, addr),
    ensures
        module.first_holds(mid as int, addr),
{
    let views = module.functions;
    assert forall|j: int| 0 <= j < mid implies !module.holds(j, addr) by {
        assert(views[j].position.end <= views[mid as int].position.start);
    }
}

proof fn lemma_found(module: ModuleView, index: usize, addr: u64)
    requires
        module.first_holds(index as int, addr),
    ensures
        module.by_address(addr) == Some(module.functions[index as int]),
{
    let chosen = choose|i: int| module.first_holds(i, addr);
    assert(module.first_holds(chosen, addr));
    if chosen < index {
        assert(!module.holds(chosen, addr));
    } else if index < chosen {
        assert(!module.holds(index as int, addr));
    }
}

proof fn lemma_absent(module: ModuleView, addr: u64)
    requires
        forall|i: int| 0 <= i < module.functions.len() ==> !module.holds(i, addr),
    ensures
        module.by_address(addr) is None,
{
    assert forall|i: int| !module.first_holds(i, addr) by {
        if 0 <= i < module.functions.len() {
            assert(!module.holds(i, addr));
        }
    }
}

/// No span holds an address that is no offset into a buffer.
proof fn lemma_beyond(module: ModuleView, addr: u64)
    requires
        addr > usize::MAX,
    ensures
        module.by_address(addr) is None,
{
    lemma_absent(module, addr);
}

proof fn lemma_between(module: ModuleView, low: usize, high: usize, addr: u64)
    requires
        low >= high,
        all_before(module.functions, low, addr),
        all_after(module.functions, high, addr),
    ensures
        module.by_address(addr) is None,
{
    let views = module.functions;
    assert forall|i: int| 0 <= i < views.len() implies !module.holds(i, addr) by {
        if i < low {
            assert(views[i].position.end <= addr);
        } else {
            assert(views[i].position.start > addr);
        }
    }
    lemma_absent(module, addr);
}

impl Default for Module {
    fn default() -> (module: Module)
        ensures
            module@.functions.len() == 0,
            module@.strings.len() == 0,
            module@.start_id == 0,
    {
        Module::new(
            List { data: Vec::new(), range: Range { start: 0, end: 0 } },
            List { data: Vec::new(), range: Range { start: 0, end: 0 } },
            0,
        )
    }
}

} // verus!
