use crate::decoder::import::{chain, split_first};
use crate::decoder::inst::{jump_target, Inst};
use crate::decoder::opcode::Opcode;
use crate::file::data::{Function, FunctionView, Module, ModuleView, Range, Value};
use crate::instruction::builtin::BuiltIn;
use vstd::prelude::*;
use vstd::string::{StrSliceExecFns, StringExecFns, StringSliceAdditionalSpecFns};

verus! {

/// A word that stands for a value that has no number to show.
#[derive(Clone, Copy, PartialEq, Eq, Structural, Debug)]
pub enum Keyword {
    Nil,
    False,
    True,
    /// The string index 0.
    NoString,
    AnyTable,
}

/// What encloses a reference in the text.
#[derive(Clone, Copy, PartialEq, Eq, Structural, Debug)]
pub enum Delimiter {
    /// `[` and `]`, around a string or a function.
    Bracket,
    /// Double quotes, around the name of a runtime function.
    Quote,
}

/// One piece of the text of an instruction. A token holds what is shown
/// and not how: turning it into characters is left to the display.
#[derive(Clone, Copy, PartialEq, Eq, Structural, Debug)]
pub enum Token {
    Mnemonic(Opcode),
    /// A run of that many spaces.
    Padding(usize),
    /// What stands between two operands.
    Separator,
    /// A jump offset in words, shown with its sign, and where it leads.
    Location { offset: i64, target: u64 },
    Register(u8),
    UpValue(u8),
    Keyword(Keyword),
    Integer(i32),
    /// A double by its bit pattern.
    Number(u64),
    Begin(Delimiter),
    End(Delimiter),
    /// A string by its index in the table, counted from 0, and its address.
    String { index: usize, address: u64 },
    /// A function by its index in the module and the address of its first
    /// instruction.
    Function { index: usize, address: u64 },
    BuiltIn(BuiltIn),
}

/// The widest mnemonic that padding lines up: `prep_variadic`, and one
/// space.
pub const MAX_PADDING: usize = 14;

/// The number of spaces behind a mnemonic of `len` bytes: enough to reach
/// `MAX_PADDING`, and one at least.
pub open spec fn padding_width(len: nat) -> usize {
    if len < MAX_PADDING {
        (MAX_PADDING - len) as usize
    } else {
        1
    }
}

/// A run of `width` spaces.
pub open spec fn spaces(width: nat) -> Seq<char> {
    Seq::new(width, |i: int| ' ')
}

pub fn padding_width_for(name: &str) -> (width: usize)
    ensures
        width == padding_width(name.spec_bytes().len()),
{
    let len = name.as_bytes().len();
    if len < MAX_PADDING {
        MAX_PADDING - len
    } else {
        1
    }
}

pub fn new_padding_for(name: &str) -> (padding: String)
    ensures
        padding@ == spaces(padding_width(name.spec_bytes().len()) as nat),
{
    let width = padding_width_for(name);
    let mut padding = String::new();
    let mut done: usize = 0;
    while done < width
        invariant
            done <= width,
            padding@ == spaces(done as nat),
        decreases width - done,
    {
        padding.append(" ");
        proof {
            reveal_strlit(" ");
            assert(padding@ =~= spaces((done + 1) as nat));
        }
        done = done + 1;
    }
    padding
}

/// A token and the separator behind it.
pub open spec fn operand(token: Token) -> Seq<Token> {
    seq![token, Token::Separator]
}

/// A token between delimiters, and the separator behind them.
pub open spec fn surrounded(delimiter: Delimiter, token: Token) -> Seq<Token> {
    seq![Token::Begin(delimiter), token, Token::End(delimiter), Token::Separator]
}

pub open spec fn boolean_tokens(value: bool) -> Seq<Token> {
    operand(
        Token::Keyword(
            if value {
                Keyword::True
            } else {
                Keyword::False
            },
        ),
    )
}

/// The text of a string constant: a keyword for index 0, else the string
/// with the index before it, where the table has one.
pub open spec fn string_tokens(index: usize, strings: Seq<Range>) -> Option<Seq<Token>> {
    if index == 0 {
        Some(operand(Token::Keyword(Keyword::NoString)))
    } else if index - 1 < strings.len() {
        Some(
            surrounded(
                Delimiter::Bracket,
                Token::String {
                    index: (index - 1) as usize,
                    address: strings[index - 1].start as u64,
                },
            ),
        )
    } else {
        None
    }
}

/// The text of a function of the module, where the module has it.
pub open spec fn function_tokens(index: usize, functions: Seq<FunctionView>) -> Option<
    Seq<Token>,
> {
    if index < functions.len() {
        Some(
            surrounded(
                Delimiter::Bracket,
                Token::Function { index, address: functions[index as int].code.start as u64 },
            ),
        )
    } else {
        None
    }
}

/// The text of a runtime function, where the id names one.
pub open spec fn built_in_tokens(index: u8) -> Option<Seq<Token>> {
    match BuiltIn::from_id(index) {
        Some(known) => Some(surrounded(Delimiter::Quote, Token::BuiltIn(known))),
        None => None,
    }
}

/// The text of a constant that is no import; an import has none here.
pub open spec fn plain_tokens(value: Value, parent: ModuleView) -> Option<Seq<Token>> {
    match value {
        Value::Nil => Some(operand(Token::Keyword(Keyword::Nil))),
        Value::False => Some(boolean_tokens(false)),
        Value::True => Some(boolean_tokens(true)),
        Value::Number(bits) => Some(operand(Token::Number(bits))),
        Value::String(index) => string_tokens(index, parent.strings),
        Value::Closure(index) => function_tokens(index, parent.functions),
        Value::Import(_) => None,
        Value::Table => Some(operand(Token::Keyword(Keyword::AnyTable))),
    }
}

/// The text of the constants of `func` with the given indices, one after
/// the other. An import among them shows the constants that it names in
/// turn, as long as `depth` lasts. An index that the function has no
/// constant for leaves the whole without text.
pub open spec fn chain_tokens(
    names: Seq<usize>,
    func: FunctionView,
    parent: ModuleView,
    depth: nat,
) -> Option<Seq<Token>>
    decreases depth, names.len(),
{
    if names.len() == 0 {
        Some(Seq::empty())
    } else if names[0] >= func.constants.len() {
        None
    } else {
        let first = match func.constants[names[0] as int] {
            Value::Import(data) => if depth == 0 {
                None
            } else {
                chain_tokens(chain(data), func, parent, (depth - 1) as nat)
            },
            value => plain_tokens(value, parent),
        };
        match first {
            Some(first) => match chain_tokens(names.drop_first(), func, parent, depth) {
                Some(rest) => Some(first + rest),
                None => None,
            },
            None => None,
        }
    }
}

/// How many imports may lie one in the other in a function: as many as it
/// has constants. A chain that goes deeper comes back to a constant that
/// it has passed, so it has no end and no text.
pub open spec fn import_depth(func: FunctionView) -> nat {
    func.constants.len()
}

/// The text of an import of the function `func`.
pub open spec fn import_tokens(encoded: u32, func: FunctionView, parent: ModuleView) -> Option<
    Seq<Token>,
> {
    chain_tokens(chain(encoded), func, parent, import_depth(func))
}

/// The text of a constant of the function `func`.
pub open spec fn constant_tokens(value: Value, func: FunctionView, parent: ModuleView) -> Option<
    Seq<Token>,
> {
    match value {
        Value::Import(data) => import_tokens(data, func, parent),
        value => plain_tokens(value, parent),
    }
}

fn string_text(index: usize, str_list: &Vec<Range>) -> (text: Option<Vec<Token>>)
    ensures
        match text {
            Some(tokens) => string_tokens(index, str_list@) == Some(tokens@),
            None => string_tokens(index, str_list@) is None,
        },
{
    if index == 0 {
        return Some(vec![Token::Keyword(Keyword::NoString), Token::Separator]);
    }
    let adjusted = index - 1;
    if adjusted < str_list.len() {
        let address = str_list[adjusted].start;
        Some(
            vec![
                Token::Begin(Delimiter::Bracket),
                Token::String { index: adjusted, address: address as u64 },
                Token::End(Delimiter::Bracket),
                Token::Separator,
            ],
        )
    } else {
        None
    }
}

fn function_text(index: usize, parent: &Module) -> (text: Option<Vec<Token>>)
    ensures
        match text {
            Some(tokens) => function_tokens(index, parent@.functions) == Some(tokens@),
            None => function_tokens(index, parent@.functions) is None,
        },
{
    let global = &parent.function_list().data;
    if index < global.len() {
        let target = global[index].code().start as u64;
        Some(
            vec![
                Token::Begin(Delimiter::Bracket),
                Token::Function { index, address: target },
                Token::End(Delimiter::Bracket),
                Token::Separator,
            ],
        )
    } else {
        None
    }
}

fn plain_text(value: Value, parent: &Module) -> (text: Option<Vec<Token>>)
    ensures
        match text {
            Some(tokens) => plain_tokens(value, parent@) == Some(tokens@),
            None => plain_tokens(value, parent@) is None,
        },
{
    match value {
        Value::Nil => Some(vec![Token::Keyword(Keyword::Nil), Token::Separator]),
        Value::False => Some(vec![Token::Keyword(Keyword::False), Token::Separator]),
        Value::True => Some(vec![Token::Keyword(Keyword::True), Token::Separator]),
        Value::Number(bits) => Some(vec![Token::Number(bits), Token::Separator]),
        Value::String(index) => string_text(index, &parent.string_list().data),
        Value::Closure(index) => function_text(index, parent),
        Value::Import(_) => None,
        Value::Table => Some(vec![Token::Keyword(Keyword::AnyTable), Token::Separator]),
    }
}

fn chain_text(encoded: u32, func: &Function, parent: &Module, depth: usize) -> (text: Option<
    Vec<Token>,
>)
    ensures
        match text {
            Some(tokens) => chain_tokens(chain(encoded), func@, parent@, depth as nat) == Some(
                tokens@,
            ),
            None => chain_tokens(chain(encoded), func@, parent@, depth as nat) is None,
        },
    decreases depth, chain(encoded).len(),
{
    match split_first(encoded) {
        None => {
            let tokens: Vec<Token> = Vec::new();
            assert(tokens@ =~= Seq::<Token>::empty());
            Some(tokens)
        },
        Some((name, rest)) => {
            let list = &func.constant_list().data;
            if name >= list.len() {
                return None;
            }
            let first = match list[name] {
                Value::Import(data) => {
                    if depth == 0 {
                        None
                    } else {
                        chain_text(data, func, parent, depth - 1)
                    }
                },
                value => plain_text(value, parent),
            };
            let mut tokens = match first {
                Some(tokens) => tokens,
                None => {
                    return None;
                },
            };
            let mut tail = match chain_text(rest, func, parent, depth) {
                Some(tail) => tail,
                None => {
                    return None;
                },
            };
            tokens.append(&mut tail);
            Some(tokens)
        },
    }
}

fn constant_text(value: Value, func: &Function, parent: &Module) -> (text: Option<Vec<Token>>)
    ensures
        match text {
            Some(tokens) => constant_tokens(value, func@, parent@) == Some(tokens@),
            None => constant_tokens(value, func@, parent@) is None,
        },
{
    match value {
        Value::Import(data) => chain_text(data, func, parent, func.constant_list().data.len()),
        value => plain_text(value, parent),
    }
}

/// Builds the text of one instruction, token by token. Each operand leaves
/// a separator behind it; the finished text drops the last token.
pub struct TextBuilder {
    buffer: Vec<Token>,
}

impl View for TextBuilder {
    type V = Seq<Token>;

    closed spec fn view(&self) -> Seq<Token> {
        self.buffer@
    }
}

/// How a builder stands after an operand was added, or was not: with text
/// the tokens are at its end, without text nothing has changed.
pub open spec fn added(
    before: Seq<Token>,
    after: Seq<Token>,
    outcome: Option<()>,
    text: Option<Seq<Token>>,
) -> bool {
    match text {
        Some(tokens) => outcome is Some && after == before + tokens,
        None => outcome is None && after == before,
    }
}

impl TextBuilder {
    pub fn with_mnemonic(opcode: Opcode) -> (builder: TextBuilder)
        ensures
            builder@ == seq![
                Token::Mnemonic(opcode),
                Token::Padding(padding_width(opcode.spec_mnemonic().len())),
            ],
    {
        let name = opcode.mnemonic();
        let len = name.unicode_len();
        let padding = if len < MAX_PADDING {
            MAX_PADDING - len
        } else {
            1
        };
        TextBuilder { buffer: vec![Token::Mnemonic(opcode), Token::Padding(padding)] }
    }

    pub fn add_separator(&mut self)
        ensures
            final(self)@ == old(self)@.push(Token::Separator),
    {
        self.buffer.push(Token::Separator);
    }

    fn add_operand(&mut self, token: Token)
        ensures
            final(self)@ == old(self)@ + operand(token),
    {
        self.buffer.push(token);
        self.add_separator();
        assert(self@ =~= old(self)@ + operand(token));
    }

    fn add_text(&mut self, text: Option<Vec<Token>>) -> (outcome: Option<()>)
        ensures
            added(
                old(self)@,
                final(self)@,
                outcome,
                match text {
                    Some(tokens) => Some(tokens@),
                    None => None,
                },
            ),
    {
        match text {
            Some(mut tokens) => {
                self.buffer.append(&mut tokens);
                Some(())
            },
            None => None,
        }
    }

    pub fn add_location(&mut self, addr: u64, offset: i64)
        ensures
            final(self)@ == old(self)@ + operand(
                Token::Location { offset, target: jump_target(addr, offset) },
            ),
    {
        let target = Inst::get_jump_target(addr, offset);
        self.add_operand(Token::Location { offset, target });
    }

    pub fn add_register(&mut self, register: u8)
        ensures
            final(self)@ == old(self)@ + operand(Token::Register(register)),
    {
        self.add_operand(Token::Register(register));
    }

    pub fn add_upvalue(&mut self, upvalue: u8)
        ensures
            final(self)@ == old(self)@ + operand(Token::UpValue(upvalue)),
    {
        self.add_operand(Token::UpValue(upvalue));
    }

    fn add_named_integer(&mut self, name: Keyword)
        ensures
            final(self)@ == old(self)@ + operand(Token::Keyword(name)),
    {
        self.add_operand(Token::Keyword(name));
    }

    pub fn add_boolean(&mut self, value: bool)
        ensures
            final(self)@ == old(self)@ + boolean_tokens(value),
    {
        let name = if value {
            Keyword::True
        } else {
            Keyword::False
        };
        self.add_named_integer(name);
    }

    pub fn add_integer(&mut self, value: i32)
        ensures
            final(self)@ == old(self)@ + operand(Token::Integer(value)),
    {
        self.add_operand(Token::Integer(value));
    }

    /// Adds a double, given by its bit pattern.
    pub fn add_number(&mut self, value: u64)
        ensures
            final(self)@ == old(self)@ + operand(Token::Number(value)),
    {
        self.add_operand(Token::Number(value));
    }

    pub fn add_string(&mut self, index: usize, str_list: &Vec<Range>) -> (outcome: Option<()>)
        ensures
            added(old(self)@, final(self)@, outcome, string_tokens(index, str_list@)),
    {
        self.add_text(string_text(index, str_list))
    }

    pub fn add_constant(&mut self, value: &Value, func: &Function, parent: &Module) -> (outcome:
        Option<()>)
        ensures
            added(
                old(self)@,
                final(self)@,
                outcome,
                constant_tokens(*value, func@, parent@),
            ),
    {
        self.add_text(constant_text(*value, func, parent))
    }

    pub fn add_built_in(&mut self, index: u8) -> (outcome: Option<()>)
        ensures
            added(old(self)@, final(self)@, outcome, built_in_tokens(index)),
    {
        match BuiltIn::try_from(index) {
            Ok(known) => {
                self.add_text(
                    Some(
                        vec![
                            Token::Begin(Delimiter::Quote),
                            Token::BuiltIn(known),
                            Token::End(Delimiter::Quote),
                            Token::Separator,
                        ],
                    ),
                )
            },
            Err(_) => None,
        }
    }

    pub fn add_function(&mut self, index: usize, parent: &Module) -> (outcome: Option<()>)
        ensures
            added(old(self)@, final(self)@, outcome, function_tokens(index, parent@.functions)),
    {
        self.add_text(function_text(index, parent))
    }

    pub fn add_import(&mut self, encoded: u32, func: &Function, parent: &Module) -> (outcome:
        Option<()>)
        ensures
            added(old(self)@, final(self)@, outcome, import_tokens(encoded, func@, parent@)),
    {
        let depth = func.constant_list().data.len();
        self.add_text(chain_text(encoded, func, parent, depth))
    }

    /// The finished text: what was built, without its last token.
    pub fn into_tokens(self) -> (tokens: Vec<Token>)
        ensures
            tokens@ == if self@.len() > 0 {
                self@.drop_last()
            } else {
                self@
            },
    {
        let mut buffer = self.buffer;
        let _ = buffer.pop();
        buffer
    }
}

} // verus!
