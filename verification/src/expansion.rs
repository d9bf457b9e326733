//! Applications in assembler syntax.
//!
//! An application can be written down the way an assembler source reads:
//!
//! ```text
//! name="Set black border"
//! include_vic20_defines
//! module!(
//!     name="main"
//!     instructions!(
//!     include_basic_header
//!     main_entry_point:
//!         lda #$00
//!         sta VIC20_BORDER_COLOR
//!         rts
//!     )
//! )
//! ```
//!
//! The functions of this module take such a description as the tokens that
//! the Rust compiler makes of it, and give the source text of the calls of the
//! builders that build the application. A procedural macro hands them its
//! input and parses what they return.
use crate::text::{
    add_decimal, decimal, is_text, join, join_lines, lines_view, parse_number, parse_u16,
};
use vstd::prelude::*;
use vstd::string::*;

verus! {

/// A token, or a group of tokens between brackets.
#[derive(Debug, PartialEq)]
pub enum TokenTree {
    /// The tokens between a pair of brackets.
    Group(Vec<TokenTree>),
    /// A word.
    Ident(String),
    /// A single character of punctuation.
    Punct(char),
    /// A literal, as it is written in the source: a text with its quotes.
    Literal(String),
}

/// Why a description of an application has no expansion.
#[derive(Debug, Clone, Copy, PartialEq, Eq, Structural)]
pub enum ExpansionError {
    /// The tokens end where one more is needed.
    MissingToken,
    /// The instruction does not take an operand of this kind.
    AddressModeNotAllowed,
    /// There is a token that cannot stand where it stands.
    UnexpectedToken,
    /// The offset of an address is no number below 65536.
    InvalidOffset,
}

/// What an operand expands to: the text that follows the name of the
/// instruction, and the number of tokens that the operand takes.
pub type Operand = Result<(Seq<char>, nat), ExpansionError>;

/// What a description expands to: lines of source text.
pub type Lines = Result<Seq<Seq<char>>, ExpansionError>;

/// Number of tokens from the one at `from` on.
pub open spec fn remaining(tokens: Seq<TokenTree>, from: int) -> nat {
    if from < tokens.len() {
        (tokens.len() - from) as nat
    } else {
        0
    }
}

/// The operand with one more token in front of it.
pub open spec fn after_token(operand: Operand) -> Operand {
    match operand {
        Ok((text, tokens)) => Ok((text, tokens + 1)),
        Err(error) => Err(error),
    }
}

/// The lines behind other lines.
pub open spec fn after_lines(first: Seq<Seq<char>>, lines: Lines) -> Lines {
    match lines {
        Ok(lines) => Ok(first + lines),
        Err(error) => Err(error),
    }
}

/// The argument of an immediate operand, from the token at `from` on.
///
/// The punctuation in front of the value says how to read it: `$` as a
/// hexadecimal number, `<` as the low byte and `>` as the high byte of the
/// address of a name. The value is the first literal or word.
pub open spec fn immediate_argument(
    tokens: Seq<TokenTree>,
    from: int,
    is_hex: bool,
    is_low: bool,
    is_high: bool,
) -> Operand
    decreases tokens.len() - from,
{
    if from < 0 || from >= tokens.len() {
        Ok((Seq::empty(), 0))
    } else {
        match tokens[from] {
            TokenTree::Punct(punct) => after_token(
                immediate_argument(
                    tokens,
                    from + 1,
                    is_hex || punct == '$',
                    is_low || punct == '<',
                    is_high || punct == '>',
                ),
            ),
            TokenTree::Literal(value) => Ok(
                (
                    if is_hex {
                        "(0x"@ + value@ + ")"@
                    } else {
                        "("@ + value@ + ")"@
                    },
                    1,
                ),
            ),
            TokenTree::Ident(value) => Ok(
                (
                    if is_low {
                        "_low(\""@ + value@ + "\")"@
                    } else if is_high {
                        "_high(\""@ + value@ + "\")"@
                    } else if is_hex {
                        "(0x"@ + value@ + ")"@
                    } else {
                        "(\""@ + value@ + "\")"@
                    },
                    1,
                ),
            ),
            TokenTree::Group(_) => Err(ExpansionError::UnexpectedToken),
        }
    }
}

/// An immediate operand, whose tokens behind the `#` start at `from`.
pub open spec fn immediate_operand(tokens: Seq<TokenTree>, from: int) -> Operand {
    match immediate_argument(tokens, from, false, false, false) {
        Ok((text, count)) => Ok(("_imm"@ + text, count)),
        Err(error) => Err(error),
    }
}

/// The text of a word. Every other token has none.
pub open spec fn word(tokens: Seq<TokenTree>, at: int) -> Seq<char> {
    if 0 <= at < tokens.len() && tokens[at] is Ident {
        tokens[at]->Ident_0@
    } else {
        Seq::empty()
    }
}

/// Is the token at `at` the given character of punctuation.
pub open spec fn is_punct(tokens: Seq<TokenTree>, at: int, punct: char) -> bool {
    0 <= at < tokens.len() && tokens[at] == TokenTree::Punct(punct)
}

/// The offset of an absolute operand, whose name is the token at `from`: the
/// number behind a plus sign. Without a plus sign and a literal behind it the
/// offset is 0.
pub open spec fn absolute_offset(tokens: Seq<TokenTree>, from: int) -> Option<u16> {
    if is_punct(tokens, from + 1, '+') && from + 2 < tokens.len() && tokens[from + 2] is Literal {
        parse_u16(tokens[from + 2]->Literal_0@)
    } else {
        Some(0)
    }
}

/// The register that indexes an absolute operand, whose name is the token
/// at `from`: the word behind a comma.
pub open spec fn absolute_index(tokens: Seq<TokenTree>, from: int) -> Seq<char> {
    if is_punct(tokens, from + 1, ',') {
        word(tokens, from + 2)
    } else {
        Seq::empty()
    }
}

/// The builder call for an absolute operand: the name of the method says
/// whether there is an offset and what indexes the address, and the
/// arguments are the name of the address and the offset.
pub open spec fn absolute_call(address: Seq<char>, offset: u16, index: Seq<char>) -> Seq<char> {
    "_addr"@ + (if offset > 0 {
        "_offs"@
    } else {
        Seq::empty()
    }) + (if index.len() > 0 {
        "_"@ + index
    } else {
        Seq::empty()
    }) + "(\""@ + address + "\""@ + (if offset > 0 {
        ", "@ + decimal(offset as nat)
    } else {
        Seq::empty()
    }) + ")"@
}

/// An absolute operand, whose name is the token at `from`. An offset or an
/// index may follow the name.
pub open spec fn absolute_operand(tokens: Seq<TokenTree>, from: int) -> Operand {
    match absolute_offset(tokens, from) {
        None => Err(ExpansionError::InvalidOffset),
        Some(offset) => Ok(
            (
                absolute_call(word(tokens, from), offset, absolute_index(tokens, from)),
                if is_punct(tokens, from + 1, '+') || is_punct(tokens, from + 1, ',') {
                    3
                } else {
                    1
                },
            ),
        ),
    }
}

/// The name inside the brackets of an indirect operand, and whether a comma
/// follows it there: the last word in front of the first comma, from the
/// token at `from` on.
pub open spec fn indirect_address(group: Seq<TokenTree>, from: int, address: Seq<char>) -> (
    Seq<char>,
    bool,
)
    decreases group.len() - from,
{
    if from < 0 || from >= group.len() {
        (address, false)
    } else {
        match group[from] {
            TokenTree::Ident(name) => indirect_address(group, from + 1, name@),
            TokenTree::Punct(punct) => if punct == ',' {
                (address, true)
            } else {
                indirect_address(group, from + 1, address)
            },
            _ => indirect_address(group, from + 1, address),
        }
    }
}

/// An indirect operand, whose brackets are the token at `from`. It is
/// indexed by X where a comma stands inside the brackets, and by Y where one
/// follows them.
pub open spec fn indirect_operand(tokens: Seq<TokenTree>, from: int) -> Operand {
    let (address, is_indexed_indirect) = if 0 <= from < tokens.len() && tokens[from] is Group {
        indirect_address(tokens[from]->Group_0@, 0, Seq::empty())
    } else {
        (Seq::empty(), false)
    };
    if is_indexed_indirect {
        Ok(("_ind_x(\""@ + address + "\")"@, 1))
    } else if is_punct(tokens, from + 1, ',') {
        Ok(("_ind_y(\""@ + address + "\")"@, 3))
    } else {
        Ok(("_ind(\""@ + address + "\")"@, 1))
    }
}

/// The kinds of operand that an instruction takes.
#[derive(Debug, Clone, Copy, PartialEq, Eq, Structural)]
pub struct Allowed {
    pub immediate: bool,
    pub accumulator: bool,
    pub absolute: bool,
    pub indirect: bool,
}

/// The operand of an instruction, from the token at `from` on.
///
/// A `#` starts an immediate operand, the word `a` is the accumulator, every
/// other word is the name of an absolute operand, and brackets hold an
/// indirect operand. Other punctuation is no operand.
pub open spec fn address_mode(tokens: Seq<TokenTree>, from: int, allowed: Allowed) -> Operand {
    if from < 0 || from >= tokens.len() {
        Err(ExpansionError::MissingToken)
    } else {
        match tokens[from] {
            TokenTree::Punct(punct) => if punct == '#' {
                if allowed.immediate {
                    after_token(immediate_operand(tokens, from + 1))
                } else {
                    Err(ExpansionError::AddressModeNotAllowed)
                }
            } else {
                Ok((Seq::empty(), 0))
            },
            TokenTree::Ident(name) => if name@ == "a"@ {
                if allowed.accumulator {
                    Ok(("_acc()"@, 1))
                } else {
                    Err(ExpansionError::AddressModeNotAllowed)
                }
            } else if allowed.absolute {
                absolute_operand(tokens, from)
            } else {
                Err(ExpansionError::AddressModeNotAllowed)
            },
            TokenTree::Group(_) => if allowed.indirect {
                indirect_operand(tokens, from)
            } else {
                Err(ExpansionError::AddressModeNotAllowed)
            },
            TokenTree::Literal(_) => Err(ExpansionError::UnexpectedToken),
        }
    }
}

/// An immediate operand takes no more tokens than there are from `from` on.
pub proof fn lemma_immediate_argument_tokens(
    tokens: Seq<TokenTree>,
    from: int,
    is_hex: bool,
    is_low: bool,
    is_high: bool,
)
    requires
        0 <= from,
    ensures
        immediate_argument(tokens, from, is_hex, is_low, is_high) matches Ok((_, count))
            ==> from + count <= tokens.len() || count == 0,
    decreases tokens.len() - from,
{
    if from < tokens.len() {
        if let TokenTree::Punct(punct) = tokens[from] {
            lemma_immediate_argument_tokens(
                tokens,
                from + 1,
                is_hex || punct == '$',
                is_low || punct == '<',
                is_high || punct == '>',
            );
        }
    }
}

/// Add the immediate operand whose tokens behind the `#` start at `start`
/// to the line, and give the number of its tokens.
pub fn build_address_mode_imm(
    line: &mut String,
    tokens: &[TokenTree],
    start: usize,
) -> (result: Result<usize, ExpansionError>)
    ensures
        match immediate_operand(tokens@, start as int) {
            Ok((text, count)) => result matches Ok(number) && number == count
                && final(line)@ == old(line)@ + text && count <= tokens@.len(),
            Err(error) => result == Err::<usize, ExpansionError>(error),
        },
{
    let mut num_tokens: usize = 0;
    line.append("_imm");
    let mut is_hex = false;
    let mut is_low = false;
    let mut is_high = false;
    let mut index = start;
    while index < tokens.len()
        invariant
            start <= index,
            num_tokens == index - start,
            line@ == old(line)@ + "_imm"@,
            index <= tokens.len() || index == start,
            immediate_argument(tokens@, start as int, false, false, false)
                == match immediate_argument(tokens@, index as int, is_hex, is_low, is_high) {
                Ok((text, count)) => Ok::<(Seq<char>, nat), ExpansionError>(
                    (text, count + num_tokens as nat),
                ),
                Err(error) => Err(error),
            },
        decreases tokens.len() - index,
    {
        num_tokens += 1;
        match &tokens[index] {
            TokenTree::Punct(punct) => {
                if *punct == '$' {
                    is_hex = true;
                }
                if *punct == '<' {
                    is_low = true;
                }
                if *punct == '>' {
                    is_high = true;
                }
            },
            TokenTree::Literal(value) => {
                if is_hex {
                    line.append("(0x");
                } else {
                    line.append("(");
                }
                line.append(value.as_str());
                line.append(")");
                assert(line@ =~= old(line)@ + immediate_operand(tokens@, start as int)->Ok_0.0);
                return Ok(num_tokens);
            },
            TokenTree::Ident(value) => {
                if is_low {
                    line.append("_low(\"");
                    line.append(value.as_str());
                    line.append("\")");
                } else if is_high {
                    line.append("_high(\"");
                    line.append(value.as_str());
                    line.append("\")");
                } else if is_hex {
                    line.append("(0x");
                    line.append(value.as_str());
                    line.append(")");
                } else {
                    line.append("(\"");
                    line.append(value.as_str());
                    line.append("\")");
                }
                assert(line@ =~= old(line)@ + immediate_operand(tokens@, start as int)->Ok_0.0);
                return Ok(num_tokens);
            },
            TokenTree::Group(_) => {
                return Err(ExpansionError::UnexpectedToken);
            },
        }
        index += 1;
    }
    assert(line@ =~= old(line)@ + immediate_operand(tokens@, start as int)->Ok_0.0);
    Ok(num_tokens)
}

/// Add the accumulator as operand to the line, and give the number of its
/// tokens.
pub fn build_address_mode_accumulator(line: &mut String) -> (num_tokens: usize)
    ensures
        final(line)@ == old(line)@ + "_acc()"@,
        num_tokens == 1,
{
    line.append("_acc()");
    1
}

/// Add the builder call for an absolute operand to the line, see
/// [`absolute_call`].
fn add_absolute_call(line: &mut String, address: &str, offset: u16, index: &str)
    ensures
        final(line)@ == old(line)@ + absolute_call(address@, offset, index@),
{
    line.append("_addr");
    if offset > 0 {
        line.append("_offs");
    }
    if index.unicode_len() > 0 {
        line.append("_");
        line.append(index);
    }
    line.append("(\"");
    line.append(address);
    line.append("\"");
    if offset > 0 {
        line.append(", ");
        add_decimal(line, offset);
    }
    line.append(")");
    assert(line@ =~= old(line)@ + absolute_call(address@, offset, index@));
}

/// The offset of the absolute operand whose name is the token at `start`,
/// see [`absolute_offset`].
fn offset_of_absolute(tokens: &[TokenTree], start: usize) -> (offset: Option<u16>)
    requires
        start < tokens.len(),
    ensures
        offset == absolute_offset(tokens@, start as int),
{
    if tokens.len() - start > 2 {
        if let TokenTree::Punct(p) = &tokens[start + 1] {
            if *p == '+' {
                if let TokenTree::Literal(l) = &tokens[start + 2] {
                    return parse_number(l.as_str());
                }
            }
        }
    }
    Some(0)
}

/// Add the absolute operand whose name is the token at `start` to the line,
/// and give the number of its tokens.
pub fn build_address_mode_absolute(
    line: &mut String,
    tokens: &[TokenTree],
    start: usize,
) -> (result: Result<usize, ExpansionError>)
    requires
        start < tokens.len(),
    ensures
        match absolute_operand(tokens@, start as int) {
            Ok((text, count)) => result matches Ok(number) && number == count
                && final(line)@ == old(line)@ + text,
            Err(error) => result == Err::<usize, ExpansionError>(error),
        },
{
    let mut num_tokens: usize = 1;
    let empty = String::new();
    let address: &String = if let TokenTree::Ident(ident) = &tokens[start] {
        ident
    } else {
        &empty
    };
    let offset = match offset_of_absolute(tokens, start) {
        Some(offset) => offset,
        None => {
            return Err(ExpansionError::InvalidOffset);
        },
    };
    let mut index: &String = &empty;
    if tokens.len() - start > 1 {
        if let TokenTree::Punct(p) = &tokens[start + 1] {
            if *p == '+' {
                num_tokens = 3;
            }
            if *p == ',' {
                if tokens.len() - start > 2 {
                    if let TokenTree::Ident(identifier) = &tokens[start + 2] {
                        index = identifier;
                    }
                }
                num_tokens = 3;
            }
        }
    }
    assert(index@ == absolute_index(tokens@, start as int));
    assert(address@ == word(tokens@, start as int));
    add_absolute_call(line, address.as_str(), offset, index.as_str());
    Ok(num_tokens)
}

/// The name inside the brackets of an indirect operand, and whether a comma
/// follows it there.
fn address_in_group<'a>(group: &'a Vec<TokenTree>, empty: &'a String) -> (result: (
    &'a String,
    bool,
))
    ensures
        (result.0@, result.1) == indirect_address(group@, 0, empty@),
{
    let mut address: &String = empty;
    let mut index: usize = 0;
    while index < group.len()
        invariant
            index <= group.len(),
            indirect_address(group@, 0, empty@) == indirect_address(
                group@,
                index as int,
                address@,
            ),
        decreases group.len() - index,
    {
        match &group[index] {
            TokenTree::Ident(identifier) => {
                address = identifier;
            },
            TokenTree::Punct(punct) => {
                if *punct == ',' {
                    return (address, true);
                }
            },
            _ => {},
        }
        index += 1;
    }
    (address, false)
}

/// Add the indirect operand whose brackets are the token at `start` to the
/// line, and give the number of its tokens.
pub fn build_address_mode_indirect(
    line: &mut String,
    tokens: &[TokenTree],
    start: usize,
) -> (num_tokens: usize)
    requires
        start < tokens.len(),
    ensures
        indirect_operand(tokens@, start as int) is Ok,
        final(line)@ == old(line)@ + indirect_operand(tokens@, start as int)->Ok_0.0,
        num_tokens == indirect_operand(tokens@, start as int)->Ok_0.1,
{
    let mut is_indirect_indexed = false;
    let mut is_indexed_indirect = false;
    let empty = String::new();
    let mut address: &String = &empty;
    if let TokenTree::Group(group) = &tokens[start] {
        let found = address_in_group(group, &empty);
        address = found.0;
        is_indexed_indirect = found.1;
    }
    if tokens.len() - start > 1 {
        if let TokenTree::Punct(punct) = &tokens[start + 1] {
            if *punct == ',' {
                is_indirect_indexed = true;
            }
        }
    }
    let num_tokens: usize = if is_indexed_indirect {
        line.append("_ind_x(\"");
        1
    } else if is_indirect_indexed {
        line.append("_ind_y(\"");
        3
    } else {
        line.append("_ind(\"");
        1
    };
    line.append(address.as_str());
    line.append("\")");
    assert(line@ =~= old(line)@ + indirect_operand(tokens@, start as int)->Ok_0.0);
    num_tokens
}

/// Add the operand that starts with the token at `start` to the line, and
/// give the number of its tokens.
pub fn build_address_mode(
    line: &mut String,
    tokens: &[TokenTree],
    start: usize,
    allowed: Allowed,
) -> (result: Result<usize, ExpansionError>)
    ensures
        match address_mode(tokens@, start as int, allowed) {
            Ok((text, count)) => result matches Ok(number) && number == count
                && final(line)@ == old(line)@ + text,
            Err(error) => result == Err::<usize, ExpansionError>(error),
        },
{
    if start >= tokens.len() {
        return Err(ExpansionError::MissingToken);
    }
    match &tokens[start] {
        TokenTree::Punct(punct) => {
            if *punct == '#' {
                if !allowed.immediate {
                    return Err(ExpansionError::AddressModeNotAllowed);
                }
                match build_address_mode_imm(line, tokens, start + 1) {
                    Ok(num_tokens) => {
                        assert(num_tokens < tokens.len()) by {
                            lemma_immediate_argument_tokens(
                                tokens@,
                                start + 1,
                                false,
                                false,
                                false,
                            );
                        }
                        Ok(num_tokens + 1)
                    },
                    Err(error) => Err(error),
                }
            } else {
                assert(line@ =~= old(line)@ + Seq::<char>::empty());
                Ok(0)
            }
        },
        TokenTree::Ident(ident) => {
            if is_text(ident, "a") {
                if !allowed.accumulator {
                    return Err(ExpansionError::AddressModeNotAllowed);
                }
                Ok(build_address_mode_accumulator(line))
            } else {
                if !allowed.absolute {
                    return Err(ExpansionError::AddressModeNotAllowed);
                }
                build_address_mode_absolute(line, tokens, start)
            }
        },
        TokenTree::Group(_group) => {
            if !allowed.indirect {
                return Err(ExpansionError::AddressModeNotAllowed);
            }
            Ok(build_address_mode_indirect(line, tokens, start))
        },
        TokenTree::Literal(_) => Err(ExpansionError::UnexpectedToken),
    }
}

/// What a word in a stream of instructions is.
#[derive(Debug, Clone, Copy, PartialEq, Eq, Structural)]
pub enum Word {
    /// The word `include_basic_header`.
    BasicHeader,
    /// The name of an instruction that takes an operand.
    Instruction(Allowed),
    /// The name of an instruction without operand.
    Implied,
    /// Every other word: a label.
    Label,
}

/// What the word is.
pub open spec fn word_kind(name: Seq<char>) -> Word {
    if name == "include_basic_header"@ {
        Word::BasicHeader
    } else if name == "asl"@ || name == "lsr"@ || name == "ror"@ || name == "rol"@ {
        Word::Instruction(
            Allowed { immediate: false, accumulator: true, absolute: true, indirect: false },
        )
    } else if name == "adc"@ || name == "and"@ || name == "cmp"@ || name == "cpx"@
               || name == "cpy"@ || name == "eor"@ || name == "lda"@
               || name == "ldx"@ || name == "ldy"@ || name == "ora"@
               || name == "sbc"@ {
        Word::Instruction(
            Allowed { immediate: true, accumulator: false, absolute: true, indirect: true },
        )
    } else if name == "bcc"@ || name == "bcs"@ || name == "beq"@ || name == "bmi"@
               || name == "bne"@ || name == "bpl"@ || name == "bvc"@
               || name == "bvs"@ || name == "jsr"@ || name == "bit"@
               || name == "dec"@ || name == "inc"@ {
        Word::Instruction(
            Allowed { immediate: false, accumulator: false, absolute: true, indirect: false },
        )
    } else if name == "sta"@ || name == "stx"@ || name == "sty"@ || name == "jmp"@ {
        Word::Instruction(
            Allowed { immediate: false, accumulator: false, absolute: true, indirect: true },
        )
    } else if name == "brk"@ || name == "cld"@ || name == "cli"@ || name == "clv"@
               || name == "dex"@ || name == "dey"@ || name == "inx"@
               || name == "iny"@ || name == "nop"@ || name == "pha"@
               || name == "pla"@ || name == "php"@ || name == "plp"@
               || name == "rti"@ || name == "sec"@ || name == "sed"@
               || name == "sei"@ || name == "tax"@ || name == "tay"@
               || name == "tsx"@ || name == "txa"@ || name == "txs"@
               || name == "tya"@ || name == "clc"@ || name == "rts"@ {
        Word::Implied
    } else {
        Word::Label
    }
}

/// What the word is.
pub fn classify(name: &String) -> (kind: Word)
    ensures
        kind == word_kind(name@),
{
    if is_text(name, "include_basic_header") {
        Word::BasicHeader
    } else if is_text(name, "asl") || is_text(name, "lsr") || is_text(name, "ror")
               || is_text(name, "rol") {
        Word::Instruction(
            Allowed { immediate: false, accumulator: true, absolute: true, indirect: false },
        )
    } else if is_text(name, "adc") || is_text(name, "and") || is_text(name, "cmp")
               || is_text(name, "cpx") || is_text(name, "cpy")
               || is_text(name, "eor") || is_text(name, "lda")
               || is_text(name, "ldx") || is_text(name, "ldy")
               || is_text(name, "ora") || is_text(name, "sbc") {
        Word::Instruction(
            Allowed { immediate: true, accumulator: false, absolute: true, indirect: true },
        )
    } else if is_text(name, "bcc") || is_text(name, "bcs") || is_text(name, "beq")
               || is_text(name, "bmi") || is_text(name, "bne")
               || is_text(name, "bpl") || is_text(name, "bvc")
               || is_text(name, "bvs") || is_text(name, "jsr")
               || is_text(name, "bit") || is_text(name, "dec")
               || is_text(name, "inc") {
        Word::Instruction(
            Allowed { immediate: false, accumulator: false, absolute: true, indirect: false },
        )
    } else if is_text(name, "sta") || is_text(name, "stx") || is_text(name, "sty")
               || is_text(name, "jmp") {
        Word::Instruction(
            Allowed { immediate: false, accumulator: false, absolute: true, indirect: true },
        )
    } else if is_text(name, "brk") || is_text(name, "cld") || is_text(name, "cli")
               || is_text(name, "clv") || is_text(name, "dex")
               || is_text(name, "dey") || is_text(name, "inx")
               || is_text(name, "iny") || is_text(name, "nop")
               || is_text(name, "pha") || is_text(name, "pla")
               || is_text(name, "php") || is_text(name, "plp")
               || is_text(name, "rti") || is_text(name, "sec")
               || is_text(name, "sed") || is_text(name, "sei")
               || is_text(name, "tax") || is_text(name, "tay")
               || is_text(name, "tsx") || is_text(name, "txa")
               || is_text(name, "txs") || is_text(name, "tya")
               || is_text(name, "clc") || is_text(name, "rts") {
        Word::Implied
    } else {
        Word::Label
    }
}

/// The builder calls for a stream of instructions, from the token at `from`
/// on: a line for every instruction and every label.
///
/// A label is a word that is no instruction; the colon behind it is passed
/// over. Tokens that are no word and stand between instructions are passed
/// over too.
pub open spec fn instruction_lines(tokens: Seq<TokenTree>, from: int) -> Lines
    decreases remaining(tokens, from),
{
    if from < 0 || from >= tokens.len() {
        Ok(Seq::empty())
    } else {
        match tokens[from] {
            TokenTree::Ident(name) => match word_kind(name@) {
                Word::BasicHeader => after_lines(
                    seq!["    .add_basic_header()"@],
                    instruction_lines(tokens, from + 1),
                ),
                Word::Instruction(allowed) => match address_mode(tokens, from + 1, allowed) {
                    Ok((operand, count)) => after_lines(
                        seq!["    ."@ + name@ + operand],
                        instruction_lines(tokens, from + 1 + count),
                    ),
                    Err(error) => Err(error),
                },
                Word::Implied => after_lines(
                    seq!["    ."@ + name@ + "()"@],
                    instruction_lines(tokens, from + 1),
                ),
                Word::Label => after_lines(
                    seq!["    .label(\""@ + name@ + "\")"@],
                    instruction_lines(tokens, from + 2),
                ),
            },
            _ => instruction_lines(tokens, from + 1),
        }
    }
}

/// The source text that builds a stream of instructions.
pub open spec fn instructions_source(tokens: Seq<TokenTree>) -> Result<Seq<char>, ExpansionError> {
    match instruction_lines(tokens, 0) {
        Ok(lines) => Ok(
            join_lines(
                seq!["  InstructionBuilder::default()"@] + lines + seq!["    .finalize()"@],
            ),
        ),
        Err(error) => Err(error),
    }
}

/// The line that hands a literal to a builder: the literal is the second
/// token behind the word at `from`, and there is no line where that token is
/// no literal.
pub open spec fn literal_lines(tokens: Seq<TokenTree>, from: int, call: Seq<char>) -> Seq<
    Seq<char>,
> {
    if 0 <= from + 2 < tokens.len() && tokens[from + 2] is Literal {
        seq![call + tokens[from + 2]->Literal_0@ + ")"@]
    } else {
        Seq::empty()
    }
}

/// The lines that hand a stream of instructions to a builder: the tokens
/// of the stream are the group that is the second token behind the word at
/// `from`, and there are no lines where that token is no group.
pub open spec fn instructions_lines(tokens: Seq<TokenTree>, from: int) -> Lines {
    if 0 <= from + 2 < tokens.len() && tokens[from + 2] is Group {
        match instructions_source(tokens[from + 2]->Group_0@) {
            Ok(source) => Ok(seq!["    .instructions("@, source, "    )"@]),
            Err(error) => Err(error),
        }
    } else {
        Ok(Seq::empty())
    }
}

/// The builder calls for a function, from the token at `from` on. A
/// function has a name and instructions. Each is a word, a token that is
/// passed over, and the value.
pub open spec fn function_lines(tokens: Seq<TokenTree>, from: int) -> Lines
    decreases remaining(tokens, from),
{
    if from < 0 || from >= tokens.len() {
        Ok(Seq::empty())
    } else if word(tokens, from) == "name"@ {
        if from + 1 >= tokens.len() {
            Err(ExpansionError::MissingToken)
        } else {
            after_lines(
                literal_lines(tokens, from, "    .name("@),
                function_lines(tokens, from + 3),
            )
        }
    } else if word(tokens, from) == "instructions"@ {
        if from + 1 >= tokens.len() {
            Err(ExpansionError::MissingToken)
        } else {
            match instructions_lines(tokens, from) {
                Ok(lines) => after_lines(lines, function_lines(tokens, from + 3)),
                Err(error) => Err(error),
            }
        }
    } else {
        function_lines(tokens, from + 1)
    }
}

/// The source text that builds a function.
pub open spec fn function_source(tokens: Seq<TokenTree>) -> Result<Seq<char>, ExpansionError> {
    match function_lines(tokens, 0) {
        Ok(lines) => Ok(
            join_lines(seq!["  FunctionBuilder::default()"@] + lines + seq!["    .build()"@]),
        ),
        Err(error) => Err(error),
    }
}

/// The lines that hand a function to the builder of a module, see
/// [`instructions_lines`].
pub open spec fn function_call_lines(tokens: Seq<TokenTree>, from: int) -> Lines {
    if 0 <= from + 2 < tokens.len() && tokens[from + 2] is Group {
        match function_source(tokens[from + 2]->Group_0@) {
            Ok(source) => Ok(seq!["    .function("@, source, "    )"@]),
            Err(error) => Err(error),
        }
    } else {
        Ok(Seq::empty())
    }
}

/// The builder calls for a module, from the token at `from` on. A module
/// has a name, instructions and functions.
pub open spec fn module_lines(tokens: Seq<TokenTree>, from: int) -> Lines
    decreases remaining(tokens, from),
{
    if from < 0 || from >= tokens.len() {
        Ok(Seq::empty())
    } else if word(tokens, from) == "name"@ {
        if from + 1 >= tokens.len() {
            Err(ExpansionError::MissingToken)
        } else {
            after_lines(literal_lines(tokens, from, "    .name("@), module_lines(tokens, from + 3))
        }
    } else if word(tokens, from) == "instructions"@ {
        if from + 1 >= tokens.len() {
            Err(ExpansionError::MissingToken)
        } else {
            match instructions_lines(tokens, from) {
                Ok(lines) => after_lines(lines, module_lines(tokens, from + 3)),
                Err(error) => Err(error),
            }
        }
    } else if word(tokens, from) == "function"@ {
        if from + 1 >= tokens.len() {
            Err(ExpansionError::MissingToken)
        } else {
            match function_call_lines(tokens, from) {
                Ok(lines) => after_lines(lines, module_lines(tokens, from + 3)),
                Err(error) => Err(error),
            }
        }
    } else {
        module_lines(tokens, from + 1)
    }
}

/// The source text that builds a module.
pub open spec fn module_source(tokens: Seq<TokenTree>) -> Result<Seq<char>, ExpansionError> {
    match module_lines(tokens, 0) {
        Ok(lines) => Ok(
            join_lines(seq!["  ModuleBuilder::default()"@] + lines + seq!["    .finalize()"@]),
        ),
        Err(error) => Err(error),
    }
}

/// The lines that hand a module to the builder of an application, see
/// [`instructions_lines`].
pub open spec fn module_call_lines(tokens: Seq<TokenTree>, from: int) -> Lines {
    if 0 <= from + 2 < tokens.len() && tokens[from + 2] is Group {
        match module_source(tokens[from + 2]->Group_0@) {
            Ok(source) => Ok(seq!["    .module("@, source, "    )"@]),
            Err(error) => Err(error),
        }
    } else {
        Ok(Seq::empty())
    }
}

/// The builder calls for an application, from the token at `from` on. An
/// application has a name, an entry point, the defines of the VIC20 and of the
/// SID, and modules.
pub open spec fn application_lines(tokens: Seq<TokenTree>, from: int) -> Lines
    decreases remaining(tokens, from),
{
    if from < 0 || from >= tokens.len() {
        Ok(Seq::empty())
    } else if word(tokens, from) == "name"@ {
        if from + 1 >= tokens.len() {
            Err(ExpansionError::MissingToken)
        } else {
            after_lines(
                literal_lines(tokens, from, "    .name("@),
                application_lines(tokens, from + 3),
            )
        }
    } else if word(tokens, from) == "entry_point"@ {
        if from + 1 >= tokens.len() {
            Err(ExpansionError::MissingToken)
        } else {
            after_lines(
                literal_lines(tokens, from, "    .entry_point("@),
                application_lines(tokens, from + 3),
            )
        }
    } else if word(tokens, from) == "include_vic20_defines"@ {
        after_lines(
            seq!["    .include_vic20_defines()"@],
            application_lines(tokens, from + 1),
        )
    } else if word(tokens, from) == "include_sid_defines"@ {
        after_lines(seq!["    .include_sid_defines()"@], application_lines(tokens, from + 1))
    } else if word(tokens, from) == "module"@ {
        if from + 1 >= tokens.len() {
            Err(ExpansionError::MissingToken)
        } else {
            match module_call_lines(tokens, from) {
                Ok(lines) => after_lines(lines, application_lines(tokens, from + 3)),
                Err(error) => Err(error),
            }
        }
    } else {
        application_lines(tokens, from + 1)
    }
}

/// A block that brings the builders into scope and holds an expression.
pub open spec fn block(expression: Seq<char>) -> Seq<char> {
    join_lines(seq!["{"@, "  use c64_assembler::builder::{*};"@, expression, "}"@])
}

/// The source text that builds an application.
pub open spec fn application_source(tokens: Seq<TokenTree>) -> Result<Seq<char>, ExpansionError> {
    match application_lines(tokens, 0) {
        Ok(lines) => Ok(
            join_lines(
                seq![
                    "{"@,
                    "  use c64_assembler::builder::{*};"@,
                    "  ApplicationBuilder::default()"@,
                ] + lines + seq!["    .finalize()"@, "}"@],
            ),
        ),
        Err(error) => Err(error),
    }
}

/// The index of the token `count` tokens behind the one at `index`, or the
/// number of tokens where there is no such token.
fn skip_tokens(tokens: &[TokenTree], index: usize, count: usize) -> (next: usize)
    requires
        index < tokens.len(),
    ensures
        index < next <= tokens.len(),
        next == index + 1 + count || (next == tokens.len() && index + 1 + count >= tokens.len()),
{
    if count < tokens.len() - index - 1 {
        index + 1 + count
    } else {
        tokens.len()
    }
}

/// Add a line to the lines.
fn add_line(lines: &mut Vec<String>, line: String)
    ensures
        lines_view(final(lines)@) == lines_view(old(lines)@).push(line@),
{
    lines.push(line);
    assert(lines_view(lines@) =~= lines_view(old(lines)@).push(line@));
}

/// Lines in front of nothing are the lines.
proof fn lemma_after_no_lines(lines: Lines)
    ensures
        after_lines(Seq::empty(), lines) == lines,
{
    if lines is Ok {
        assert(Seq::<Seq<char>>::empty() + lines->Ok_0 =~= lines->Ok_0);
    }
}

/// Lines in front of lines in front of lines.
proof fn lemma_after_more_lines(first: Seq<Seq<char>>, second: Seq<Seq<char>>, lines: Lines)
    ensures
        after_lines(first, after_lines(second, lines)) == after_lines(first + second, lines),
{
    if lines is Ok {
        assert(first + (second + lines->Ok_0) =~= (first + second) + lines->Ok_0);
    }
}

/// There are no instructions behind the last token.
proof fn lemma_no_instruction_lines(tokens: Seq<TokenTree>, from: int)
    requires
        from >= tokens.len(),
    ensures
        instruction_lines(tokens, from) == Ok::<Seq<Seq<char>>, ExpansionError>(Seq::empty()),
{
}

/// The source text of the builder calls that build the stream of
/// instructions that the tokens describe, see [`instruction_lines`].
pub fn build_instructions(input: &[TokenTree]) -> (result: Result<String, ExpansionError>)
    ensures
        match instructions_source(input@) {
            Ok(source) => result matches Ok(text) && text@ == source,
            Err(error) => result matches Err(reported) && reported == error,
        },
{
    let mut lines: Vec<String> = Vec::new();
    add_line(&mut lines, String::from_str("  InstructionBuilder::default()"));
    let ghost head = lines_view(lines@);
    let ghost mut done: Seq<Seq<char>> = Seq::empty();
    assert(head =~= seq!["  InstructionBuilder::default()"@]);
    proof {
        lemma_after_no_lines(instruction_lines(input@, 0));
    }
    let mut index: usize = 0;
    while index < input.len()
        invariant
            head == seq!["  InstructionBuilder::default()"@],
            lines_view(lines@) == head + done,
            instruction_lines(input@, 0) == after_lines(
                done,
                instruction_lines(input@, index as int),
            ),
        decreases input.len() - index,
    {
        let mut next = skip_tokens(input, index, 0);
        let ghost mut added: Seq<Seq<char>> = Seq::empty();
        if let TokenTree::Ident(identifier) = &input[index] {
            match classify(identifier) {
                Word::BasicHeader => {
                    add_line(&mut lines, String::from_str("    .add_basic_header()"));
                    proof {
                        added = seq!["    .add_basic_header()"@];
                        assert(instruction_lines(input@, index as int) == after_lines(
                            added,
                            instruction_lines(input@, next as int),
                        ));
                    }
                },
                Word::Instruction(allowed) => {
                    let mut line = String::from_str("    .");
                    line.append(identifier.as_str());
                    let num_tokens = build_address_mode(&mut line, input, index + 1, allowed)?;
                    proof {
                        added = seq![line@];
                        let operand = address_mode(input@, index + 1, allowed)->Ok_0.0;
                        assert(line@ =~= "    ."@ + identifier@ + operand);
                    }
                    add_line(&mut lines, line);
                    next = skip_tokens(input, index, num_tokens);
                    proof {
                        if next != index + 1 + num_tokens {
                            lemma_no_instruction_lines(input@, index + 1 + num_tokens);
                            lemma_no_instruction_lines(input@, next as int);
                        }
                        assert(instruction_lines(input@, index as int) == after_lines(
                            added,
                            instruction_lines(input@, next as int),
                        ));
                    }
                },
                Word::Implied => {
                    let mut line = String::from_str("    .");
                    line.append(identifier.as_str());
                    line.append("()");
                    proof {
                        added = seq![line@];
                        assert(line@ =~= "    ."@ + identifier@ + "()"@);
                        assert(instruction_lines(input@, index as int) == after_lines(
                            added,
                            instruction_lines(input@, next as int),
                        ));
                    }
                    add_line(&mut lines, line);
                },
                Word::Label => {
                    let mut line = String::from_str("    .label(\"");
                    line.append(identifier.as_str());
                    line.append("\")");
                    proof {
                        added = seq![line@];
                        assert(line@ =~= "    .label(\""@ + identifier@ + "\")"@);
                    }
                    add_line(&mut lines, line);
                    next = skip_tokens(input, index, 1);
                    proof {
                        if next != index + 2 {
                            lemma_no_instruction_lines(input@, index + 2);
                            lemma_no_instruction_lines(input@, next as int);
                        }
                        assert(instruction_lines(input@, index as int) == after_lines(
                            added,
                            instruction_lines(input@, next as int),
                        ));
                    }
                },
            }
        } else {
            proof {
                lemma_after_no_lines(instruction_lines(input@, next as int));
            }
        }
        proof {
            lemma_after_more_lines(done, added, instruction_lines(input@, next as int));
            assert(lines_view(lines@) =~= head + (done + added));
            done = done + added;
        }
        index = next;
    }
    add_line(&mut lines, String::from_str("    .finalize()"));
    proof {
        assert(done + Seq::<Seq<char>>::empty() =~= done);
        assert(lines_view(lines@) =~= seq!["  InstructionBuilder::default()"@] + done + seq![
            "    .finalize()"@,
        ]);
    }
    Ok(join(&lines))
}


/// Add the line that hands a literal to a builder, see [`literal_lines`].
fn add_literal_call(lines: &mut Vec<String>, tokens: &[TokenTree], index: usize, call: &str)
    requires
        index < tokens.len(),
    ensures
        lines_view(final(lines)@) == lines_view(old(lines)@) + literal_lines(
            tokens@,
            index as int,
            call@,
        ),
{
    if tokens.len() - index > 2 {
        if let TokenTree::Literal(literal) = &tokens[index + 2] {
            let mut line = String::from_str(call);
            line.append(literal.as_str());
            line.append(")");
            add_line(lines, line);
            assert(lines_view(lines@) =~= lines_view(old(lines)@) + seq![
                call@ + literal@ + ")"@,
            ]);
            return ;
        }
    }
    assert(lines_view(lines@) =~= lines_view(old(lines)@) + Seq::<Seq<char>>::empty());
}

/// There is nothing behind the last token.
proof fn lemma_no_function_lines(tokens: Seq<TokenTree>, from: int)
    requires
        from >= tokens.len(),
    ensures
        function_lines(tokens, from) == Ok::<Seq<Seq<char>>, ExpansionError>(Seq::empty()),
{
}

/// There is nothing behind the last token.
proof fn lemma_no_module_lines(tokens: Seq<TokenTree>, from: int)
    requires
        from >= tokens.len(),
    ensures
        module_lines(tokens, from) == Ok::<Seq<Seq<char>>, ExpansionError>(Seq::empty()),
{
}

/// There is nothing behind the last token.
proof fn lemma_no_application_lines(tokens: Seq<TokenTree>, from: int)
    requires
        from >= tokens.len(),
    ensures
        application_lines(tokens, from) == Ok::<Seq<Seq<char>>, ExpansionError>(Seq::empty()),
{
}

/// Add the lines that hand a stream of instructions to a builder, see
/// [`instructions_lines`].
fn add_instructions_call(
    lines: &mut Vec<String>,
    tokens: &[TokenTree],
    index: usize,
) -> (result: Result<(), ExpansionError>)
    requires
        index < tokens.len(),
    ensures
        match instructions_lines(tokens@, index as int) {
            Ok(more) => result is Ok && lines_view(final(lines)@) == lines_view(old(lines)@)
                + more,
            Err(error) => result matches Err(reported) && reported == error,
        },
{
    if tokens.len() - index > 2 {
        if let TokenTree::Group(group) = &tokens[index + 2] {
            let source = build_instructions(group.as_slice())?;
            add_line(lines, String::from_str("    .instructions("));
            add_line(lines, source);
            add_line(lines, String::from_str("    )"));
            assert(lines_view(lines@) =~= lines_view(old(lines)@) + seq![
                "    .instructions("@,
                source@,
                "    )"@,
            ]);
            return Ok(());
        }
    }
    assert(lines_view(lines@) =~= lines_view(old(lines)@) + Seq::<Seq<char>>::empty());
    Ok(())
}

/// The source text of the builder calls that build the function that the
/// tokens describe, see [`function_lines`].
pub fn build_function(input: &[TokenTree]) -> (result: Result<String, ExpansionError>)
    ensures
        match function_source(input@) {
            Ok(source) => result matches Ok(text) && text@ == source,
            Err(error) => result matches Err(reported) && reported == error,
        },
{
    let mut lines: Vec<String> = Vec::new();
    add_line(&mut lines, String::from_str("  FunctionBuilder::default()"));
    let ghost head = lines_view(lines@);
    let ghost mut done: Seq<Seq<char>> = Seq::empty();
    assert(head =~= seq!["  FunctionBuilder::default()"@]);
    proof {
        lemma_after_no_lines(function_lines(input@, 0));
        reveal_strlit("name");
        reveal_strlit("instructions");
    }
    let mut index: usize = 0;
    while index < input.len()
        invariant
            head == seq!["  FunctionBuilder::default()"@],
            lines_view(lines@) == head + done,
            function_lines(input@, 0) == after_lines(done, function_lines(input@, index as int)),
            "name"@.len() > 0,
            "instructions"@.len() > 0,
        decreases input.len() - index,
    {
        let mut next = skip_tokens(input, index, 0);
        let ghost mut added: Seq<Seq<char>> = Seq::empty();
        if let TokenTree::Ident(identifier) = &input[index] {
            if is_text(identifier, "name") {
                if input.len() - index < 2 {
                    return Err(ExpansionError::MissingToken);
                }
                add_literal_call(&mut lines, input, index, "    .name(");
                next = skip_tokens(input, index, 2);
                proof {
                    added = literal_lines(input@, index as int, "    .name("@);
                    if next != index + 3 {
                        lemma_no_function_lines(input@, index + 3);
                        lemma_no_function_lines(input@, next as int);
                    }
                    assert(function_lines(input@, index as int) == after_lines(
                        added,
                        function_lines(input@, next as int),
                    ));
                }
            } else if is_text(identifier, "instructions") {
                if input.len() - index < 2 {
                    return Err(ExpansionError::MissingToken);
                }
                add_instructions_call(&mut lines, input, index)?;
                next = skip_tokens(input, index, 2);
                proof {
                    added = instructions_lines(input@, index as int)->Ok_0;
                    if next != index + 3 {
                        lemma_no_function_lines(input@, index + 3);
                        lemma_no_function_lines(input@, next as int);
                    }
                    assert(function_lines(input@, index as int) == after_lines(
                        added,
                        function_lines(input@, next as int),
                    ));
                }
            } else {
                proof {
                    lemma_after_no_lines(function_lines(input@, next as int));
                }
            }
        } else {
            proof {
                lemma_after_no_lines(function_lines(input@, next as int));
            }
        }
        proof {
            lemma_after_more_lines(done, added, function_lines(input@, next as int));
            assert(lines_view(lines@) =~= head + (done + added));
            done = done + added;
        }
        index = next;
    }
    add_line(&mut lines, String::from_str("    .build()"));
    proof {
        assert(done + Seq::<Seq<char>>::empty() =~= done);
        assert(lines_view(lines@) =~= seq!["  FunctionBuilder::default()"@] + done + seq![
            "    .build()"@,
        ]);
    }
    Ok(join(&lines))
}

/// Add the lines that hand a function to the builder of a module, see
/// [`function_call_lines`].
fn add_function_call(
    lines: &mut Vec<String>,
    tokens: &[TokenTree],
    index: usize,
) -> (result: Result<(), ExpansionError>)
    requires
        index < tokens.len(),
    ensures
        match function_call_lines(tokens@, index as int) {
            Ok(more) => result is Ok && lines_view(final(lines)@) == lines_view(old(lines)@)
                + more,
            Err(error) => result matches Err(reported) && reported == error,
        },
{
    if tokens.len() - index > 2 {
        if let TokenTree::Group(group) = &tokens[index + 2] {
            let source = build_function(group.as_slice())?;
            add_line(lines, String::from_str("    .function("));
            add_line(lines, source);
            add_line(lines, String::from_str("    )"));
            assert(lines_view(lines@) =~= lines_view(old(lines)@) + seq![
                "    .function("@,
                source@,
                "    )"@,
            ]);
            return Ok(());
        }
    }
    assert(lines_view(lines@) =~= lines_view(old(lines)@) + Seq::<Seq<char>>::empty());
    Ok(())
}

/// The source text of the builder calls that build the module that the
/// tokens describe, see [`module_lines`].
pub fn build_module(input: &[TokenTree]) -> (result: Result<String, ExpansionError>)
    ensures
        match module_source(input@) {
            Ok(source) => result matches Ok(text) && text@ == source,
            Err(error) => result matches Err(reported) && reported == error,
        },
{
    let mut lines: Vec<String> = Vec::new();
    add_line(&mut lines, String::from_str("  ModuleBuilder::default()"));
    let ghost head = lines_view(lines@);
    let ghost mut done: Seq<Seq<char>> = Seq::empty();
    assert(head =~= seq!["  ModuleBuilder::default()"@]);
    proof {
        lemma_after_no_lines(module_lines(input@, 0));
        reveal_strlit("name");
        reveal_strlit("instructions");
        reveal_strlit("function");
    }
    let mut index: usize = 0;
    while index < input.len()
        invariant
            head == seq!["  ModuleBuilder::default()"@],
            lines_view(lines@) == head + done,
            module_lines(input@, 0) == after_lines(done, module_lines(input@, index as int)),
            "name"@.len() > 0,
            "instructions"@.len() > 0,
            "function"@.len() > 0,
        decreases input.len() - index,
    {
        let mut next = skip_tokens(input, index, 0);
        let ghost mut added: Seq<Seq<char>> = Seq::empty();
        if let TokenTree::Ident(identifier) = &input[index] {
            if is_text(identifier, "name") {
                if input.len() - index < 2 {
                    return Err(ExpansionError::MissingToken);
                }
                add_literal_call(&mut lines, input, index, "    .name(");
                next = skip_tokens(input, index, 2);
                proof {
                    added = literal_lines(input@, index as int, "    .name("@);
                    if next != index + 3 {
                        lemma_no_module_lines(input@, index + 3);
                        lemma_no_module_lines(input@, next as int);
                    }
                    assert(module_lines(input@, index as int) == after_lines(
                        added,
                        module_lines(input@, next as int),
                    ));
                }
            } else if is_text(identifier, "instructions") {
                if input.len() - index < 2 {
                    return Err(ExpansionError::MissingToken);
                }
                add_instructions_call(&mut lines, input, index)?;
                next = skip_tokens(input, index, 2);
                proof {
                    added = instructions_lines(input@, index as int)->Ok_0;
                    if next != index + 3 {
                        lemma_no_module_lines(input@, index + 3);
                        lemma_no_module_lines(input@, next as int);
                    }
                    assert(module_lines(input@, index as int) == after_lines(
                        added,
                        module_lines(input@, next as int),
                    ));
                }
            } else if is_text(identifier, "function") {
                if input.len() - index < 2 {
                    return Err(ExpansionError::MissingToken);
                }
                add_function_call(&mut lines, input, index)?;
                next = skip_tokens(input, index, 2);
                proof {
                    added = function_call_lines(input@, index as int)->Ok_0;
                    if next != index + 3 {
                        lemma_no_module_lines(input@, index + 3);
                        lemma_no_module_lines(input@, next as int);
                    }
                    assert(module_lines(input@, index as int) == after_lines(
                        added,
                        module_lines(input@, next as int),
                    ));
                }
            } else {
                proof {
                    lemma_after_no_lines(module_lines(input@, next as int));
                }
            }
        } else {
            proof {
                lemma_after_no_lines(module_lines(input@, next as int));
            }
        }
        proof {
            lemma_after_more_lines(done, added, module_lines(input@, next as int));
            assert(lines_view(lines@) =~= head + (done + added));
            done = done + added;
        }
        index = next;
    }
    add_line(&mut lines, String::from_str("    .finalize()"));
    proof {
        assert(done + Seq::<Seq<char>>::empty() =~= done);
        assert(lines_view(lines@) =~= seq!["  ModuleBuilder::default()"@] + done + seq![
            "    .finalize()"@,
        ]);
    }
    Ok(join(&lines))
}

/// Add the lines that hand a module to the builder of an application, see
/// [`module_call_lines`].
fn add_module_call(
    lines: &mut Vec<String>,
    tokens: &[TokenTree],
    index: usize,
) -> (result: Result<(), ExpansionError>)
    requires
        index < tokens.len(),
    ensures
        match module_call_lines(tokens@, index as int) {
            Ok(more) => result is Ok && lines_view(final(lines)@) == lines_view(old(lines)@)
                + more,
            Err(error) => result matches Err(reported) && reported == error,
        },
{
    if tokens.len() - index > 2 {
        if let TokenTree::Group(group) = &tokens[index + 2] {
            let source = build_module(group.as_slice())?;
            add_line(lines, String::from_str("    .module("));
            add_line(lines, source);
            add_line(lines, String::from_str("    )"));
            assert(lines_view(lines@) =~= lines_view(old(lines)@) + seq![
                "    .module("@,
                source@,
                "    )"@,
            ]);
            return Ok(());
        }
    }
    assert(lines_view(lines@) =~= lines_view(old(lines)@) + Seq::<Seq<char>>::empty());
    Ok(())
}

/// The source text of a block that builds the application that the tokens
/// describe, see [`application_lines`].
pub fn application(input: &[TokenTree]) -> (result: Result<String, ExpansionError>)
    ensures
        match application_source(input@) {
            Ok(source) => result matches Ok(text) && text@ == source,
            Err(error) => result matches Err(reported) && reported == error,
        },
{
    let mut lines: Vec<String> = Vec::new();
    add_line(&mut lines, String::from_str("{"));
    add_line(&mut lines, String::from_str("  use c64_assembler::builder::{*};"));
    add_line(&mut lines, String::from_str("  ApplicationBuilder::default()"));
    let ghost head = lines_view(lines@);
    let ghost mut done: Seq<Seq<char>> = Seq::empty();
    assert(head =~= seq![
        "{"@,
        "  use c64_assembler::builder::{*};"@,
        "  ApplicationBuilder::default()"@,
    ]);
    proof {
        lemma_after_no_lines(application_lines(input@, 0));
        reveal_strlit("name");
        reveal_strlit("entry_point");
        reveal_strlit("include_vic20_defines");
        reveal_strlit("include_sid_defines");
        reveal_strlit("module");
    }
    let mut index: usize = 0;
    while index < input.len()
        invariant
            head == seq![
                "{"@,
                "  use c64_assembler::builder::{*};"@,
                "  ApplicationBuilder::default()"@,
            ],
            lines_view(lines@) == head + done,
            application_lines(input@, 0) == after_lines(
                done,
                application_lines(input@, index as int),
            ),
            "name"@.len() > 0,
            "entry_point"@.len() > 0,
            "include_vic20_defines"@.len() > 0,
            "include_sid_defines"@.len() > 0,
            "module"@.len() > 0,
        decreases input.len() - index,
    {
        let mut next = skip_tokens(input, index, 0);
        let ghost mut added: Seq<Seq<char>> = Seq::empty();
        if let TokenTree::Ident(identifier) = &input[index] {
            if is_text(identifier, "name") {
                if input.len() - index < 2 {
                    return Err(ExpansionError::MissingToken);
                }
                add_literal_call(&mut lines, input, index, "    .name(");
                next = skip_tokens(input, index, 2);
                proof {
                    added = literal_lines(input@, index as int, "    .name("@);
                    if next != index + 3 {
                        lemma_no_application_lines(input@, index + 3);
                        lemma_no_application_lines(input@, next as int);
                    }
                    assert(application_lines(input@, index as int) == after_lines(
                        added,
                        application_lines(input@, next as int),
                    ));
                }
            } else if is_text(identifier, "entry_point") {
                if input.len() - index < 2 {
                    return Err(ExpansionError::MissingToken);
                }
                add_literal_call(&mut lines, input, index, "    .entry_point(");
                next = skip_tokens(input, index, 2);
                proof {
                    added = literal_lines(input@, index as int, "    .entry_point("@);
                    if next != index + 3 {
                        lemma_no_application_lines(input@, index + 3);
                        lemma_no_application_lines(input@, next as int);
                    }
                    assert(application_lines(input@, index as int) == after_lines(
                        added,
                        application_lines(input@, next as int),
                    ));
                }
            } else if is_text(identifier, "include_vic20_defines") {
                add_line(&mut lines, String::from_str("    .include_vic20_defines()"));
                proof {
                    added = seq!["    .include_vic20_defines()"@];
                    assert(application_lines(input@, index as int) == after_lines(
                        added,
                        application_lines(input@, next as int),
                    ));
                }
            } else if is_text(identifier, "include_sid_defines") {
                add_line(&mut lines, String::from_str("    .include_sid_defines()"));
                proof {
                    added = seq!["    .include_sid_defines()"@];
                    assert(application_lines(input@, index as int) == after_lines(
                        added,
                        application_lines(input@, next as int),
                    ));
                }
            } else if is_text(identifier, "module") {
                if input.len() - index < 2 {
                    return Err(ExpansionError::MissingToken);
                }
                add_module_call(&mut lines, input, index)?;
                next = skip_tokens(input, index, 2);
                proof {
                    added = module_call_lines(input@, index as int)->Ok_0;
                    if next != index + 3 {
                        lemma_no_application_lines(input@, index + 3);
                        lemma_no_application_lines(input@, next as int);
                    }
                    assert(application_lines(input@, index as int) == after_lines(
                        added,
                        application_lines(input@, next as int),
                    ));
                }
            } else {
                proof {
                    lemma_after_no_lines(application_lines(input@, next as int));
                }
            }
        } else {
            proof {
                lemma_after_no_lines(application_lines(input@, next as int));
            }
        }
        proof {
            lemma_after_more_lines(done, added, application_lines(input@, next as int));
            assert(lines_view(lines@) =~= head + (done + added));
            done = done + added;
        }
        index = next;
    }
    add_line(&mut lines, String::from_str("    .finalize()"));
    add_line(&mut lines, String::from_str("}"));
    proof {
        assert(done + Seq::<Seq<char>>::empty() =~= done);
        assert(lines_view(lines@) =~= seq![
            "{"@,
            "  use c64_assembler::builder::{*};"@,
            "  ApplicationBuilder::default()"@,
        ] + done + seq!["    .finalize()"@, "}"@]);
    }
    Ok(join(&lines))
}

/// The source text of a block that builds the module that the tokens
/// describe.
pub fn module(input: &[TokenTree]) -> (result: Result<String, ExpansionError>)
    ensures
        match module_source(input@) {
            Ok(source) => result matches Ok(text) && text@ == block(source),
            Err(error) => result matches Err(reported) && reported == error,
        },
{
    let source = build_module(input)?;
    let mut lines: Vec<String> = Vec::new();
    add_line(&mut lines, String::from_str("{"));
    add_line(&mut lines, String::from_str("  use c64_assembler::builder::{*};"));
    add_line(&mut lines, source);
    add_line(&mut lines, String::from_str("}"));
    assert(lines_view(lines@) =~= seq![
        "{"@,
        "  use c64_assembler::builder::{*};"@,
        source@,
        "}"@,
    ]);
    Ok(join(&lines))
}

/// The source text of a block that builds the function that the tokens
/// describe.
pub fn function(input: &[TokenTree]) -> (result: Result<String, ExpansionError>)
    ensures
        match function_source(input@) {
            Ok(source) => result matches Ok(text) && text@ == block(source),
            Err(error) => result matches Err(reported) && reported == error,
        },
{
    let source = build_function(input)?;
    let mut lines: Vec<String> = Vec::new();
    add_line(&mut lines, String::from_str("{"));
    add_line(&mut lines, String::from_str("  use c64_assembler::builder::{*};"));
    add_line(&mut lines, source);
    add_line(&mut lines, String::from_str("}"));
    assert(lines_view(lines@) =~= seq![
        "{"@,
        "  use c64_assembler::builder::{*};"@,
        source@,
        "}"@,
    ]);
    Ok(join(&lines))
}

/// The source text of a block that builds the stream of instructions that
/// the tokens describe.
pub fn instructions(input: &[TokenTree]) -> (result: Result<String, ExpansionError>)
    ensures
        match instructions_source(input@) {
            Ok(source) => result matches Ok(text) && text@ == block(source),
            Err(error) => result matches Err(reported) && reported == error,
        },
{
    let source = build_instructions(input)?;
    let mut lines: Vec<String> = Vec::new();
    add_line(&mut lines, String::from_str("{"));
    add_line(&mut lines, String::from_str("  use c64_assembler::builder::{*};"));
    add_line(&mut lines, source);
    add_line(&mut lines, String::from_str("}"));
    assert(lines_view(lines@) =~= seq![
        "{"@,
        "  use c64_assembler::builder::{*};"@,
        source@,
        "}"@,
    ]);
    Ok(join(&lines))
}

} // verus!
