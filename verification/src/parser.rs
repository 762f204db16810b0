//! Two-pass translation of a `.data` / `.text` assembly source into a
//! program, its data image and its label map.
//!
//! The first pass walks the logical lines, collecting data values, raw
//! instructions and label positions; the second pass resolves label
//! references and operand text into final instructions. Line comments start
//! with `;`. A section header out of order, or a value, label or
//! instruction outside its section, is a `WrongSection` error.

use vstd::prelude::*;

use crate::instructions::Instruction;

pub mod data;
pub mod lines;
pub mod text;

verus! {

/// Everything that can go wrong while parsing an assembly source.
#[derive(Debug)]
pub enum ParsingError {
    /// A control-flow instruction names a label that is never declared.
    UndefinedLabel(String),
    /// A label name is declared twice.
    RedefinedLabel(String),
    /// A literal does not denote a 16-bit word.
    NumberConversion(String),
    /// A header, value, label or instruction stands outside its section.
    WrongSection(String),
    /// A token that fits no rule at this position.
    UnexpectedToken,
    /// An instruction misses an operand.
    MissingToken,
    /// The file as a whole has no parsable shape.
    MalformedFile,
}

/// The mathematical value of a parsing error: the same variants over
/// character sequences.
pub ghost enum SpecParsingError {
    UndefinedLabel(Seq<char>),
    RedefinedLabel(Seq<char>),
    NumberConversion(Seq<char>),
    WrongSection(Seq<char>),
    UnexpectedToken,
    MissingToken,
    MalformedFile,
}

impl View for ParsingError {
    type V = SpecParsingError;

    open spec fn view(&self) -> SpecParsingError {
        match self {
            ParsingError::UndefinedLabel(s) => SpecParsingError::UndefinedLabel(s@),
            ParsingError::RedefinedLabel(s) => SpecParsingError::RedefinedLabel(s@),
            ParsingError::NumberConversion(s) => SpecParsingError::NumberConversion(s@),
            ParsingError::WrongSection(s) => SpecParsingError::WrongSection(s@),
            ParsingError::UnexpectedToken => SpecParsingError::UnexpectedToken,
            ParsingError::MissingToken => SpecParsingError::MissingToken,
            ParsingError::MalformedFile => SpecParsingError::MalformedFile,
        }
    }
}

/// Which section the first pass is currently inside.
#[derive(Clone, Copy, Debug, PartialEq, Eq, Structural)]
pub enum ProgramSection {
    Unset,
    Data,
    Text,
}

/// Whether a character can start a label name.
pub open spec fn is_ident_start(c: char) -> bool {
    ('a' <= c && c <= 'z') || ('A' <= c && c <= 'Z') || c == '_'
}

/// Whether a character can continue a label name.
pub open spec fn is_ident_char(c: char) -> bool {
    is_ident_start(c) || data::is_digit(c)
}

/// Whether a token is a well-formed label name.
pub open spec fn is_ident(s: Seq<char>) -> bool {
    &&& s.len() > 0
    &&& is_ident_start(s[0])
    &&& forall|i: int| 0 <= i < s.len() ==> is_ident_char(#[trigger] s[i])
}

/// Decides whether a token is a well-formed label name.
pub fn is_ident_str(s: &str) -> (r: bool)
    ensures
        r == is_ident(s@),
{
    let n = s.unicode_len();
    if n == 0 {
        return false;
    }
    let c0 = s.get_char(0);
    if !((c0 >= 'a' && c0 <= 'z') || (c0 >= 'A' && c0 <= 'Z') || c0 == '_') {
        return false;
    }
    let mut i: usize = 0;
    while i < n
        invariant
            n == s@.len(),
            i <= n,
            forall|j: int| 0 <= j < i ==> is_ident_char(#[trigger] s@[j]),
            is_ident_start(s@[0]),
        decreases n - i,
    {
        let c = s.get_char(i);
        if !((c >= 'a' && c <= 'z') || (c >= 'A' && c <= 'Z') || (c >= '0' && c <= '9') || c
            == '_') {
            return false;
        }
        i += 1;
    }
    true
}

/// The whole state of the first pass: the current section, the data image,
/// the raw instructions and the declared labels so far.
pub ghost struct Pass1State {
    pub section: ProgramSection,
    pub data: Seq<u16>,
    pub raws: Seq<text::SpecRawInstruction>,
    pub labels: Seq<(Seq<char>, usize)>,
}

/// The first pass starts outside any section, with everything empty.
pub open spec fn initial_pass1() -> Pass1State {
    Pass1State {
        section: ProgramSection::Unset,
        data: Seq::empty(),
        raws: Seq::empty(),
        labels: Seq::empty(),
    }
}

/// Declaring a label: only inside `.text`, only a well-formed name, only
/// once; it points at the next instruction address.
pub open spec fn spec_declare_label(st: Pass1State, name: Seq<char>) -> Result<
    Pass1State,
    SpecParsingError,
> {
    if !(st.section is Text) {
        Err(SpecParsingError::WrongSection(name))
    } else if !is_ident(name) {
        Err(SpecParsingError::UnexpectedToken)
    } else if text::spec_lookup(st.labels, name) is Some {
        Err(SpecParsingError::RedefinedLabel(name))
    } else {
        Ok(Pass1State { labels: st.labels.push((name, st.raws.len() as usize)), ..st })
    }
}

/// A statement line: a value in `.data`, an instruction in `.text`, and a
/// `WrongSection` error anywhere else — a data literal inside `.text`
/// included.
pub open spec fn spec_statement(st: Pass1State, t: Seq<char>) -> Result<
    Pass1State,
    SpecParsingError,
> {
    match st.section {
        ProgramSection::Unset => Err(SpecParsingError::WrongSection(t)),
        ProgramSection::Data => match data::spec_parse_data(t) {
            Ok(v) => Ok(Pass1State { data: st.data.push(v), ..st }),
            Err(e) => Err(e),
        },
        ProgramSection::Text => {
            if data::spec_parse_data(t) is Ok {
                Err(SpecParsingError::WrongSection(t))
            } else {
                match text::spec_parse_raw(t) {
                    Ok(r) => Ok(Pass1State { raws: st.raws.push(r), ..st }),
                    Err(e) => Err(e),
                }
            }
        },
    }
}

/// One line of the first pass. A blank line changes nothing. `.data` opens
/// the data section at the start, `.text` the text section after it; any
/// other header is out of order. A first token of the shape `name:`
/// declares a label for the next instruction address; the rest of the line,
/// if any, is handled as a statement of its own.
pub open spec fn spec_line_step(st: Pass1State, line: Seq<char>) -> Result<
    Pass1State,
    SpecParsingError,
> {
    let t = lines::spec_trim(line);
    if t.len() == 0 {
        Ok(st)
    } else if t[0] == '.' {
        let name = t.subrange(1, t.len() as int);
        if name == "data"@ && st.section is Unset {
            Ok(Pass1State { section: ProgramSection::Data, ..st })
        } else if name == "text"@ && st.section is Data {
            Ok(Pass1State { section: ProgramSection::Text, ..st })
        } else {
            Err(SpecParsingError::WrongSection(name))
        }
    } else {
        let k = lines::first_ws(t);
        let head = t.subrange(0, k);
        if head.len() > 0 && head.last() == ':' {
            match spec_declare_label(st, head.subrange(0, head.len() - 1)) {
                Err(e) => Err(e),
                Ok(st2) => {
                    let rest = lines::spec_trim(t.subrange(k, t.len() as int));
                    if rest.len() == 0 {
                        Ok(st2)
                    } else {
                        spec_statement(st2, rest)
                    }
                },
            }
        } else {
            spec_statement(st, t)
        }
    }
}

/// The first pass over the lines from position `i` on.
pub open spec fn spec_pass1(lines: Seq<Seq<char>>, i: int, st: Pass1State) -> Result<
    Pass1State,
    SpecParsingError,
>
    decreases lines.len() - i,
{
    if i < 0 || i >= lines.len() {
        Ok(st)
    } else {
        match spec_line_step(st, lines[i]) {
            Ok(st2) => spec_pass1(lines, i + 1, st2),
            Err(e) => Err(e),
        }
    }
}

/// The position of the first bucket for an address in a label map.
pub open spec fn spec_bucket_idx_from(
    acc: Seq<(usize, Seq<Seq<char>>)>,
    addr: usize,
    i: int,
) -> Option<int>
    decreases acc.len() - i,
{
    if i < 0 || i >= acc.len() {
        None
    } else if acc[i].0 == addr {
        Some(i)
    } else {
        spec_bucket_idx_from(acc, addr, i + 1)
    }
}

/// Appends a name to its address's bucket, opening the bucket if the
/// address is new.
pub open spec fn spec_add_label(
    acc: Seq<(usize, Seq<Seq<char>>)>,
    addr: usize,
    name: Seq<char>,
) -> Seq<(usize, Seq<Seq<char>>)> {
    match spec_bucket_idx_from(acc, addr, 0) {
        Some(j) => acc.update(j, (addr, acc[j].1.push(name))),
        None => acc.push((addr, seq![name])),
    }
}

/// The inversion of the name-to-address table into an address-to-names map,
/// folding the entries in declaration order from position `i` on.
pub open spec fn spec_invert_from(
    labels: Seq<(Seq<char>, usize)>,
    i: int,
    acc: Seq<(usize, Seq<Seq<char>>)>,
) -> Seq<(usize, Seq<Seq<char>>)>
    decreases labels.len() - i,
{
    if i < 0 || i >= labels.len() {
        acc
    } else {
        spec_invert_from(labels, i + 1, spec_add_label(acc, labels[i].1, labels[i].0))
    }
}

/// The address-to-names map of a label table.
pub open spec fn spec_invert(labels: Seq<(Seq<char>, usize)>) -> Seq<(usize, Seq<Seq<char>>)> {
    spec_invert_from(labels, 0, Seq::empty())
}

/// What a source text parses to: the program, the data image and the label
/// map. A source that never reaches a `.text` section is malformed.
pub open spec fn spec_parse_source(s: Seq<char>) -> Result<
    (Seq<Instruction>, Seq<u16>, Seq<(usize, Seq<Seq<char>>)>),
    SpecParsingError,
> {
    let source_lines = lines::spec_raw_lines(s);
    match spec_pass1(source_lines, 0, initial_pass1()) {
        Err(e) => Err(e),
        Ok(st) => {
            if !(st.section is Text) {
                Err(SpecParsingError::MalformedFile)
            } else {
                match text::spec_resolve(st.raws, st.labels) {
                    Ok(prog) => Ok((prog, st.data, spec_invert(st.labels))),
                    Err(e) => Err(e),
                }
            }
        },
    }
}

/// The first pass's working state.
struct Pass1 {
    section: ProgramSection,
    data: Vec<u16>,
    raws: Vec<text::RawInstruction>,
    labels: Vec<(String, usize)>,
}

impl View for Pass1 {
    type V = Pass1State;

    closed spec fn view(&self) -> Pass1State {
        Pass1State {
            section: self.section,
            data: self.data@,
            raws: self.raws.deep_view(),
            labels: text::name_map_view(self.labels@),
        }
    }
}

/// Runs one line of the first pass; on an error the state is unchanged.
fn pass1_step(st: &mut Pass1, line: &str) -> (r: Result<(), ParsingError>)
    ensures
        match r {
            Ok(_) => spec_line_step(old(st)@, line@) == Ok::<Pass1State, SpecParsingError>(
                final(st)@,
            ),
            Err(e) => spec_line_step(old(st)@, line@) == Err::<Pass1State, SpecParsingError>(e@),
        },
{
    let t = lines::trim_str(line);
    let n = t.as_str().unicode_len();
    if n == 0 {
        return Ok(());
    }
    let c0 = t.as_str().get_char(0);
    if c0 == '.' {
        let name = String::from_str(t.as_str().substring_char(1, n));
        let is_data = lines::str_eq(name.as_str(), "data");
        let is_text = lines::str_eq(name.as_str(), "text");
        if is_data && matches!(st.section, ProgramSection::Unset) {
            st.section = ProgramSection::Data;
            Ok(())
        } else if is_text && matches!(st.section, ProgramSection::Data) {
            st.section = ProgramSection::Text;
            Ok(())
        } else {
            Err(ParsingError::WrongSection(name))
        }
    } else {
        let k = lines::find_first_ws(t.as_str());
        if k > 0 && t.as_str().get_char(k - 1) == ':' {
            let name = String::from_str(t.as_str().substring_char(0, k - 1));
            proof {
                assert(name@ =~= t@.subrange(0, k as int).subrange(
                    0,
                    t@.subrange(0, k as int).len() - 1,
                ));
            }
            if !matches!(st.section, ProgramSection::Text) {
                return Err(ParsingError::WrongSection(name));
            }
            if !is_ident_str(name.as_str()) {
                return Err(ParsingError::UnexpectedToken);
            }
            match text::lookup_label(&st.labels, name.as_str()) {
                Some(_) => Err(ParsingError::RedefinedLabel(name)),
                None => {
                    let ghost pre = text::name_map_view(st.labels@);
                    let addr = st.raws.len();
                    st.labels.push((name, addr));
                    proof {
                        assert(text::name_map_view(st.labels@) =~= pre.push(
                            (st.labels@.last().0@, addr),
                        ));
                    }
                    let rest = lines::trim_str(t.as_str().substring_char(k, n));
                    if rest.as_str().unicode_len() == 0 {
                        Ok(())
                    } else {
                        statement_step(st, rest)
                    }
                },
            }
        } else {
            statement_step(st, t)
        }
    }
}

/// Runs one statement line of the first pass.
fn statement_step(st: &mut Pass1, t: String) -> (r: Result<(), ParsingError>)
    ensures
        match r {
            Ok(_) => spec_statement(old(st)@, t@) == Ok::<Pass1State, SpecParsingError>(
                final(st)@,
            ),
            Err(e) => spec_statement(old(st)@, t@) == Err::<Pass1State, SpecParsingError>(e@),
        },
{
    match st.section {
        ProgramSection::Unset => Err(ParsingError::WrongSection(t)),
        ProgramSection::Data => match data::parse_data(t.as_str()) {
            Ok(v) => {
                st.data.push(v);
                Ok(())
            },
            Err(e) => Err(e),
        },
        ProgramSection::Text => {
            if data::parse_data(t.as_str()).is_ok() {
                return Err(ParsingError::WrongSection(t));
            }
            match text::parse_raw_instruction(t.as_str()) {
                Ok(raw) => {
                    let ghost pre = st.raws.deep_view();
                    let ghost rv = raw@;
                    st.raws.push(raw);
                    proof {
                        assert(st.raws.deep_view() =~= pre.push(rv));
                    }
                    Ok(())
                },
                Err(e) => Err(e),
            }
        },
    }
}

/// Finds the bucket for an address in the map under construction.
fn find_bucket(out: &Vec<(usize, Vec<String>)>, addr: usize) -> (r: Option<usize>)
    ensures
        match r {
            Some(j) => j < out@.len() && out@[j as int].0 == addr && spec_bucket_idx_from(
                crate::processor::labels_view(out@),
                addr,
                0,
            ) == Some(j as int),
            None => spec_bucket_idx_from(crate::processor::labels_view(out@), addr, 0) is None,
        },
{
    let n = out.len();
    let mut j: usize = 0;
    while j < n
        invariant
            n == out@.len(),
            j <= n,
            spec_bucket_idx_from(crate::processor::labels_view(out@), addr, 0)
                == spec_bucket_idx_from(crate::processor::labels_view(out@), addr, j as int),
        decreases n - j,
    {
        if out[j].0 == addr {
            return Some(j);
        }
        j += 1;
    }
    None
}

/// Builds the address-to-names map from the declared labels: each name is
/// appended to its address's bucket in declaration order.
fn invert_labels(labels: &Vec<(String, usize)>) -> (r: Vec<(usize, Vec<String>)>)
    ensures
        crate::processor::labels_view(r@) == spec_invert(text::name_map_view(labels@)),
{
    let n = labels.len();
    let mut out: Vec<(usize, Vec<String>)> = Vec::new();
    let mut i: usize = 0;
    proof {
        assert(crate::processor::labels_view(out@) =~= Seq::<(usize, Seq<Seq<char>>)>::empty());
    }
    while i < n
        invariant
            n == labels@.len(),
            i <= n,
            spec_invert(text::name_map_view(labels@)) == spec_invert_from(
                text::name_map_view(labels@),
                i as int,
                crate::processor::labels_view(out@),
            ),
        decreases n - i,
    {
        let ghost pre = crate::processor::labels_view(out@);
        let name = labels[i].0.clone();
        let addr = labels[i].1;
        match find_bucket(&out, addr) {
            Some(j) => {
                let mut names = out[j].1.clone();
                proof {
                    assert(names@ =~= out@[j as int].1@);
                    assert(names.deep_view() =~= out@[j as int].1.deep_view());
                }
                names.push(name);
                proof {
                    assert(names.deep_view() =~= out@[j as int].1.deep_view().push(
                        labels@[i as int].0@,
                    ));
                }
                let a0 = out[j].0;
                out.set(j, (a0, names));
                proof {
                    assert(crate::processor::labels_view(out@) =~= pre.update(
                        j as int,
                        (addr, pre[j as int].1.push(labels@[i as int].0@)),
                    ));
                }
            },
            None => {
                let mut names: Vec<String> = Vec::new();
                names.push(name);
                out.push((addr, names));
                proof {
                    assert(out@.last().1.deep_view() =~= seq![labels@[i as int].0@]);
                    assert(crate::processor::labels_view(out@) =~= pre.push(
                        (addr, seq![labels@[i as int].0@]),
                    ));
                }
            },
        }
        i += 1;
    }
    out
}

/// What a parsed source file yields: the program, the data image and the
/// address-to-names label map.
pub type AsmFileData = (Vec<Instruction>, Vec<u16>, Vec<(usize, Vec<String>)>);

/// The assembly-source parser.
pub struct AsmFileParser;

impl AsmFileParser {
    /// Parses a whole source text into a program, a data image and a label
    /// map, exactly as `spec_parse_source` describes.
    pub fn parse_source(source: &str) -> (r: Result<AsmFileData, ParsingError>)
        ensures
            match r {
                Ok(out) => spec_parse_source(source@) == Ok::<
                    (Seq<Instruction>, Seq<u16>, Seq<(usize, Seq<Seq<char>>)>),
                    SpecParsingError,
                >((out.0@, out.1@, crate::processor::labels_view(out.2@))),
                Err(e) => spec_parse_source(source@) == Err::<
                    (Seq<Instruction>, Seq<u16>, Seq<(usize, Seq<Seq<char>>)>),
                    SpecParsingError,
                >(e@),
            },
    {
        let source_lines = lines::split_lines(source);
        let mut st = Pass1 {
            section: ProgramSection::Unset,
            data: Vec::new(),
            raws: Vec::new(),
            labels: Vec::new(),
        };
        proof {
            assert(st@.data =~= Seq::<u16>::empty());
            assert(st@.raws =~= Seq::<text::SpecRawInstruction>::empty());
            assert(st@.labels =~= Seq::<(Seq<char>, usize)>::empty());
            assert(st@ =~= initial_pass1());
        }
        let n = source_lines.len();
        let mut i: usize = 0;
        while i < n
            invariant
                n == source_lines@.len(),
                i <= n,
                source_lines.deep_view() == lines::spec_raw_lines(source@),
                spec_pass1(source_lines.deep_view(), 0, initial_pass1()) == spec_pass1(
                    source_lines.deep_view(),
                    i as int,
                    st@,
                ),
            decreases n - i,
        {
            proof {
                assert(source_lines.deep_view()[i as int] == source_lines@[i as int]@);
            }
            match pass1_step(&mut st, source_lines[i].as_str()) {
                Ok(_) => {},
                Err(e) => {
                    return Err(e);
                },
            }
            i += 1;
        }
        proof {
            assert(source_lines.deep_view().len() == source_lines@.len());
        }
        if !matches!(st.section, ProgramSection::Text) {
            return Err(ParsingError::MalformedFile);
        }
        let prog = match text::parse_instructions(&st.raws, &st.labels) {
            Ok(p) => p,
            Err(e) => {
                return Err(e);
            },
        };
        let label_map = invert_labels(&st.labels);
        Ok((prog, st.data, label_map))
    }
}

} // verus!
