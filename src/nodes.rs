use vstd::prelude::*;
use crate::engine::StageError;
use crate::frame::{CfaDescriptor, FrameInterpretation, Raw};
use crate::parametrizable::{
    ConfigError, ParameterType, ParameterTypeDescriptor, ParameterValue, Parameters,
    ParametersDescriptor,
};
use crate::payload::{Interpretation, Payload, PayloadError, Storage};

verus! {

/// The character of decimal digit `d`.
pub open spec fn digit_char(d: nat) -> char {
    if d == 0 { '0' }
    else if d == 1 { '1' }
    else if d == 2 { '2' }
    else if d == 3 { '3' }
    else if d == 4 { '4' }
    else if d == 5 { '5' }
    else if d == 6 { '6' }
    else if d == 7 { '7' }
    else if d == 8 { '8' }
    else { '9' }
}

/// The last `w` decimal digits of `n`, most significant first.
pub open spec fn fixed_digits(n: nat, w: nat) -> Seq<char>
    decreases w,
{
    if w == 0 {
        Seq::empty()
    } else {
        fixed_digits(n / 10, (w - 1) as nat).push(digit_char(n % 10))
    }
}

/// How many decimal digits `n` has.
pub open spec fn digit_count(n: nat) -> nat
    decreases n,
{
    if n < 10 {
        1
    } else {
        1 + digit_count(n / 10)
    }
}

/// `n` in decimal, padded with zeros on the left to at least six digits.
pub open spec fn frame_number_text(n: nat) -> Seq<char> {
    fixed_digits(n, if digit_count(n) < 6 { 6 } else { digit_count(n) })
}

/// The path of the file that frame `n` is written to in directory `dir`.
pub open spec fn dng_path(dir: Seq<char>, n: nat) -> Seq<char> {
    dir + seq!['/'] + frame_number_text(n) + seq!['.', 'd', 'n', 'g']
}

fn digit_str(d: u64) -> (r: &'static str)
    requires
        d < 10,
    ensures
        r@ == seq![digit_char(d as nat)],
{
    proof {
        reveal_strlit("0");
        reveal_strlit("1");
        reveal_strlit("2");
        reveal_strlit("3");
        reveal_strlit("4");
        reveal_strlit("5");
        reveal_strlit("6");
        reveal_strlit("7");
        reveal_strlit("8");
        reveal_strlit("9");
    }
    if d == 0 { "0" }
    else if d == 1 { "1" }
    else if d == 2 { "2" }
    else if d == 3 { "3" }
    else if d == 4 { "4" }
    else if d == 5 { "5" }
    else if d == 6 { "6" }
    else if d == 7 { "7" }
    else if d == 8 { "8" }
    else {
        assert(d == 9);
        "9"
    }
}

fn push_fixed_digits(out: &mut String, n: u64, w: u64)
    ensures
        final(out)@ == old(out)@ + fixed_digits(n as nat, w as nat),
    decreases w,
{
    if w == 0 {
        assert(old(out)@ + fixed_digits(n as nat, 0) =~= old(out)@);
        return;
    }
    push_fixed_digits(out, n / 10, w - 1);
    out.append(digit_str(n % 10));
    assert(out@ =~= old(out)@ + fixed_digits(n as nat, w as nat));
}

fn count_digits(n: u64) -> (r: u64)
    ensures
        r == digit_count(n as nat),
{
    let mut m: u64 = n;
    let mut c: u64 = 1;
    proof {
        lemma_digit_count_bound(n as nat);
    }
    while m >= 10
        invariant
            digit_count(n as nat) == c - 1 + digit_count(m as nat),
            1 <= c,
            c + digit_count(m as nat) <= 21,
        decreases m,
    {
        assert(digit_count((m / 10) as nat) >= 1);
        m = m / 10;
        c = c + 1;
    }
    c
}

proof fn lemma_digit_count_bound(m: nat)
    requires
        m <= u64::MAX,
    ensures
        digit_count(m) <= 20,
{
    reveal_with_fuel(pow10, 21);
    assert(pow10(20) == 100000000000000000000);
    lemma_digit_count_le(m, 20);
}

/// A number below `10^k` has at most `k` digits.
proof fn lemma_digit_count_le(m: nat, k: nat)
    requires
        k >= 1,
        m < pow10(k),
    ensures
        digit_count(m) <= k,
    decreases k,
{
    if m >= 10 {
        if k == 1 {
            assert(pow10(1) == 10 * pow10(0));
        } else {
            assert(pow10(k) == 10 * pow10((k - 1) as nat));
            assert(m / 10 < pow10((k - 1) as nat));
            lemma_digit_count_le(m / 10, (k - 1) as nat);
        }
    }
}

pub open spec fn pow10(k: nat) -> nat
    decreases k,
{
    if k == 0 {
        1
    } else {
        10 * pow10((k - 1) as nat)
    }
}

/// `dir`, a slash, the frame number padded to six digits, and `.dng`.
pub fn frame_file_path(dir: &String, frame: u64) -> (r: String)
    ensures
        r@ == dng_path(dir@, frame as nat),
{
    let mut out = dir.clone();
    proof {
        reveal_strlit("/");
        reveal_strlit(".dng");
    }
    out.append("/");
    let count = count_digits(frame);
    let width: u64 = if count < 6 { 6 } else { count };
    push_fixed_digits(&mut out, frame, width);
    out.append(".dng");
    assert(out@ =~= dng_path(dir@, frame as nat));
    out
}

/// The DNG `CFAPattern` for a colour filter phase (0 red, 1 green, 2 blue).
pub open spec fn spec_cfa_pattern(cfa: CfaDescriptor) -> (u8, u8, u8, u8) {
    match (cfa.first_is_red_x, cfa.first_is_red_y) {
        (true, true) => (0, 1, 1, 2),
        (true, false) => (1, 0, 2, 1),
        (false, true) => (1, 2, 0, 1),
        (false, false) => (2, 1, 1, 0),
    }
}

pub fn cfa_pattern(cfa: CfaDescriptor) -> (r: (u8, u8, u8, u8))
    ensures
        r == spec_cfa_pattern(cfa),
{
    match (cfa.first_is_red_x, cfa.first_is_red_y) {
        (true, true) => (0, 1, 1, 2),
        (true, false) => (1, 0, 2, 1),
        (false, true) => (1, 2, 0, 1),
        (false, false) => (2, 1, 1, 0),
    }
}

/// Everything needed to write one frame as a DNG file; the write itself is a
/// side effect that waits for the frame's commit rights.
pub struct DngFile {
    pub path: String,
    pub width: u32,
    pub height: u32,
    pub bit_depth: u16,
    pub cfa_pattern: (u8, u8, u8, u8),
    pub data: Vec<u8>,
}

/// The error a payload gives where a CPU raw frame is needed.
pub open spec fn raw_input_error(input: Payload) -> Option<StageError> {
    match input.downcast_spec(crate::payload::InterpretationKind::Raw) {
        Ok(_) => None,
        Err(PayloadError::NotOnCpu) => Some(StageError::Transfer),
        Err(_) => Some(StageError::WrongFormat),
    }
}

fn stage_error_of(e: PayloadError) -> (r: StageError)
    ensures
        r == (match e {
            PayloadError::NotOnCpu | PayloadError::Transfer => StageError::Transfer,
            PayloadError::InsufficientData { .. } => StageError::InsufficientData,
            PayloadError::WrongFormat => StageError::WrongFormat,
        }),
{
    match e {
        PayloadError::NotOnCpu | PayloadError::Transfer => StageError::Transfer,
        PayloadError::InsufficientData { .. } => StageError::InsufficientData,
        PayloadError::WrongFormat => StageError::WrongFormat,
    }
}

/// A writer that writes CinemaDNG: a directory with one DNG file per frame,
/// named by sequence number.
pub struct CinemaDngWriter {
    dir_path: String,
}

impl CinemaDngWriter {
    pub closed spec fn spec_dir_path(&self) -> Seq<char> {
        self.dir_path@
    }

    /// The target directory.
    pub fn dir_path(&self) -> (r: &String)
        ensures
            r@ == self.spec_dir_path(),
    {
        &self.dir_path
    }

    /// One mandatory string parameter, `path`.
    pub fn describe_parameters() -> (r: ParametersDescriptor)
        ensures
            r.entries@.len() == 1,
            r.entries@[0].0@ == "path"@,
            r.entries@[0].1 == ParameterTypeDescriptor::Mandatory(ParameterType::StringParameter),
    {
        ParametersDescriptor::new().with(
            "path",
            ParameterTypeDescriptor::Mandatory(ParameterType::StringParameter),
        )
    }

    /// A writer for the directory named by `path`. Creating the directory is
    /// left to the caller.
    pub fn from_parameters(parameters: &Parameters) -> (r: Result<Self, ConfigError>)
        ensures
            r is Ok <==> parameters.spec_get("path"@) matches Some(
                ParameterValue::StringParameter(_),
            ),
            r matches Ok(w) ==> (parameters.spec_get("path"@) matches Some(
                ParameterValue::StringParameter(p),
            ) && w.spec_dir_path() == p@),
            r matches Err(e) ==> if parameters.spec_get("path"@) is None {
                e matches ConfigError::Missing(n) && n@ == "path"@
            } else {
                e matches ConfigError::TypeMismatch(n) && n@ == "path"@
            },
    {
        match parameters.get("path") {
            Some(ParameterValue::StringParameter(s)) => Ok(CinemaDngWriter { dir_path: s.clone() }),
            Some(_) => Err(ConfigError::TypeMismatch(String::from_str("path"))),
            None => Err(ConfigError::Missing(String::from_str("path"))),
        }
    }

    /// What to write for frame `frame`: nothing for an empty payload, a DNG
    /// file for a raw CPU frame, and an error for any other payload.
    pub fn process(&self, input: &Payload, frame: u64) -> (r: Result<Option<DngFile>, StageError>)
        ensures
            input.spec_is_empty() ==> r matches Ok(None),
            !input.spec_is_empty() ==> match raw_input_error(*input) {
                Some(e) => r == Err::<Option<DngFile>, StageError>(e),
                None => (r matches Ok(Some(f)) && (input.downcast_spec(
                    crate::payload::InterpretationKind::Raw,
                ) matches Ok((Interpretation::Raw(raw), bytes)) && {
                    &&& f.path@ == dng_path(self.spec_dir_path(), frame as nat)
                    &&& f.width == raw.width as u32
                    &&& f.height == raw.height as u32
                    &&& f.bit_depth == raw.bit_depth as u16
                    &&& f.cfa_pattern == spec_cfa_pattern(raw.cfa)
                    &&& f.data@ == bytes
                })),
            },
    {
        if input.is_empty() {
            return Ok(None);
        }
        match input.downcast_raw() {
            Err(e) => Err(stage_error_of(e)),
            Ok(f) => Ok(
                Some(
                    DngFile {
                        path: frame_file_path(&self.dir_path, frame),
                        width: f.interp.width as u32,
                        height: f.interp.height as u32,
                        bit_depth: f.interp.bit_depth as u16,
                        cfa_pattern: cfa_pattern(f.interp.cfa),
                        data: f.storage,
                    },
                ),
            ),
        }
    }
}


/// 12-bit packed pixels (two pixels in three bytes) reduced to their upper
/// eight bits, for `pairs` pixel pairs.
pub open spec fn unpack12(bytes: Seq<u8>, pairs: nat) -> Seq<u8> {
    Seq::new(
        2 * pairs,
        |i: int|
            if i % 2 == 0 {
                bytes[3 * (i / 2)]
            } else {
                ((bytes[3 * (i / 2) + 1] << 4u8) | (bytes[3 * (i / 2) + 2] >> 4u8)) as u8
            },
    )
}

/// The bytes an 8-bit raw frame gets from a raw frame `raw` holding `bytes`,
/// or the error the conversion stops with.
pub open spec fn converted_bytes(raw: Raw, bytes: Seq<u8>) -> Result<Seq<u8>, StageError> {
    if raw.bit_depth == 8 {
        Ok(bytes)
    } else if raw.bit_depth == 12 {
        if !raw.size_fits() || raw.required_len() > bytes.len() {
            Err(StageError::InsufficientData)
        } else if (raw.width * raw.height) % 2 != 0 {
            Err(StageError::WrongFormat)
        } else {
            Ok(unpack12(bytes, (raw.width * raw.height / 2) as nat))
        }
    } else {
        Err(StageError::WrongFormat)
    }
}

/// Converts raw frames to a bit depth of eight.
pub struct BitDepthConverter {}

fn unpack12_exec(bytes: &Vec<u8>, pairs: usize) -> (r: Vec<u8>)
    requires
        3 * pairs <= bytes@.len(),
    ensures
        r@ == unpack12(bytes@, pairs as nat),
{
    let mut out: Vec<u8> = Vec::new();
    let mut k: usize = 0;
    let len = bytes.len();
    while k < pairs
        invariant
            len == bytes@.len(),
            k <= pairs,
            3 * pairs <= bytes@.len(),
            out@ == unpack12(bytes@, k as nat),
        decreases pairs - k,
    {
        assert(3 * k + 2 < bytes@.len());
        let a = bytes[3 * k];
        let b = bytes[3 * k + 1];
        let c = bytes[3 * k + 2];
        out.push(a);
        out.push((b << 4u8) | (c >> 4u8));
        proof {
            let want = unpack12(bytes@, (k + 1) as nat);
            assert forall|i: int| 0 <= i < 2 * (k + 1) implies #[trigger] out@[i] == want[i] by {
                if i < 2 * k {
                    assert(out@[i] == unpack12(bytes@, k as nat)[i]);
                } else if i == 2 * k {
                    assert(i / 2 == k);
                } else {
                    assert(i / 2 == k);
                }
            }
            assert(out@ =~= want);
        }
        k += 1;
    }
    out
}

impl BitDepthConverter {
    /// No parameters.
    pub fn describe_parameters() -> (r: ParametersDescriptor)
        ensures
            r.entries@.len() == 0,
    {
        ParametersDescriptor::new()
    }

    /// Takes no parameters, so any bag is accepted.
    pub fn from_parameters(parameters: &Parameters) -> (r: Result<Self, ConfigError>)
        ensures
            r is Ok,
    {
        Ok(BitDepthConverter {})
    }

    /// An empty payload passes through; a raw CPU frame becomes an 8-bit raw
    /// frame of the same size and colour filter phase.
    pub fn process(&self, input: &Payload) -> (r: Result<Option<Payload>, StageError>)
        ensures
            input.spec_is_empty() ==> (r matches Ok(Some(p)) && p.spec_is_empty()),
            !input.spec_is_empty() ==> match raw_input_error(*input) {
                Some(e) => r == Err::<Option<Payload>, StageError>(e),
                None => (input.downcast_spec(crate::payload::InterpretationKind::Raw) matches Ok(
                    (Interpretation::Raw(raw), bytes),
                ) && match converted_bytes(raw, bytes) {
                    Err(e) => r == Err::<Option<Payload>, StageError>(e),
                    Ok(out) => (r matches Ok(Some(p)) && p.cpu_contents() == Some(
                        (Interpretation::Raw(Raw { bit_depth: 8, ..raw }), out),
                    )),
                }),
            },
    {
        if input.is_empty() {
            return Ok(Some(Payload::empty()));
        }
        let f = match input.downcast_raw() {
            Err(e) => {
                return Err(stage_error_of(e));
            },
            Ok(f) => f,
        };
        let raw = f.interp;
        let target = Raw { bit_depth: 8, ..raw };
        if raw.bit_depth == 8 {
            return Ok(
                Some(
                    Payload::Frame { interp: Interpretation::Raw(target), storage: Storage::Cpu(f.storage) },
                ),
            );
        }
        if raw.bit_depth != 12 {
            return Err(StageError::WrongFormat);
        }
        let required = match raw.checked_required_bytes() {
            None => {
                return Err(StageError::InsufficientData);
            },
            Some(n) => n,
        };
        if required > f.storage.len() {
            return Err(StageError::InsufficientData);
        }
        let pixels: usize = raw.width as usize * raw.height as usize;
        if pixels % 2 != 0 {
            return Err(StageError::WrongFormat);
        }
        let pairs: usize = pixels / 2;
        proof {
            assert(pixels * 12 / 8 == 3 * pairs);
        }
        let out = unpack12_exec(&f.storage, pairs);
        Ok(Some(Payload::Frame { interp: Interpretation::Raw(target), storage: Storage::Cpu(out) }))
    }
}

/// What one call of [`Node::process`] yields: the payload for the next stage,
/// if the chain goes on, and the file to write once the frame may commit.
pub struct Processed {
    pub output: Option<Payload>,
    pub write: Option<DngFile>,
}

/// A pipeline stage built by name.
pub enum Node {
    BitDepthConverter(BitDepthConverter),
    CinemaDngWriter(CinemaDngWriter),
}

/// The error, if any, that `node` reports for `input`.
pub open spec fn node_error(node: Node, input: Payload) -> Option<StageError> {
    if input.spec_is_empty() {
        None
    } else {
        match raw_input_error(input) {
            Some(e) => Some(e),
            None => match node {
                Node::CinemaDngWriter(_) => None,
                Node::BitDepthConverter(_) => match input.downcast_spec(
                    crate::payload::InterpretationKind::Raw,
                ) {
                    Ok((Interpretation::Raw(raw), bytes)) => match converted_bytes(raw, bytes) {
                        Err(e) => Some(e),
                        Ok(_) => None,
                    },
                    _ => None,
                },
            },
        }
    }
}

impl Node {
    /// Runs the stage on the payload of frame `frame`. Errors come exactly
    /// as [`node_error`] gives them; an empty payload is never an error.
    pub fn process(&self, input: &Payload, frame: u64) -> (r: Result<Processed, StageError>)
        ensures
            r is Err <==> node_error(*self, *input) is Some,
            r matches Err(e) ==> node_error(*self, *input) == Some(e),
            input.spec_is_empty() ==> (r matches Ok(out) && out.output matches Some(p)
                && p.spec_is_empty() && out.write is None),
            r matches Ok(out) ==> match self {
                Node::BitDepthConverter(_) => out.write is None && out.output is Some,
                Node::CinemaDngWriter(w) => (out.output matches Some(p) && p.spec_is_empty())
                    && (input.spec_is_empty() <==> out.write is None) && (out.write matches Some(
                    f,
                ) ==> f.path@ == dng_path(w.spec_dir_path(), frame as nat)),
            },
    {
        match self {
            Node::BitDepthConverter(c) => match c.process(input) {
                Ok(output) => Ok(Processed { output, write: None }),
                Err(e) => Err(e),
            },
            Node::CinemaDngWriter(w) => match w.process(input, frame) {
                Ok(write) => Ok(Processed { output: Some(Payload::empty()), write }),
                Err(e) => Err(e),
            },
        }
    }
}

/// A node of any kind, given any payload, either succeeds or reports one of
/// the errors documented for malformed input: a wrong layout, too few bytes,
/// or bytes that are not on the CPU. An empty payload never fails.
pub proof fn lemma_process_errors_documented(node: Node, input: Payload)
    ensures
        node_error(node, input) matches Some(e) ==> (e is WrongFormat || e is InsufficientData
            || e is Transfer),
        input.spec_is_empty() ==> node_error(node, input) is None,
{
}

/// The names of the nodes that can be built by name, with their parameters.
pub fn list_available_nodes() -> (r: Vec<(String, ParametersDescriptor)>)
    ensures
        r@.len() == 2,
        r@[0].0@ == "BitDepthConverter"@,
        r@[0].1.entries@.len() == 0,
        r@[1].0@ == "CinemaDngWriter"@,
        r@[1].1.entries@.len() == 1,
        r@[1].1.entries@[0].0@ == "path"@,
{
    let mut r: Vec<(String, ParametersDescriptor)> = Vec::new();
    r.push((String::from_str("BitDepthConverter"), BitDepthConverter::describe_parameters()));
    r.push((String::from_str("CinemaDngWriter"), CinemaDngWriter::describe_parameters()));
    r
}

/// Builds the node registered under `name` from `parameters`.
pub fn create_node_from_name(name: &str, parameters: &Parameters) -> (r: Result<Node, ConfigError>)
    ensures
        name@ == "BitDepthConverter"@ ==> r matches Ok(Node::BitDepthConverter(_)),
        name@ == "CinemaDngWriter"@ ==> {
            &&& (r is Ok <==> parameters.spec_get("path"@) matches Some(
                ParameterValue::StringParameter(_),
            ))
            &&& (r matches Ok(n) ==> (n matches Node::CinemaDngWriter(w) && parameters.spec_get(
                "path"@,
            ) matches Some(ParameterValue::StringParameter(p)) && w.spec_dir_path() == p@))
        },
        name@ != "BitDepthConverter"@ && name@ != "CinemaDngWriter"@ ==> (r matches Err(
            ConfigError::UnknownNode(n),
        ) && n@ == name@),
{
    proof {
        reveal_strlit("BitDepthConverter");
        reveal_strlit("CinemaDngWriter");
    }
    let key = String::from_str(name);
    assert("BitDepthConverter"@ != "CinemaDngWriter"@) by {
        assert("BitDepthConverter"@.len() != "CinemaDngWriter"@.len());
    }
    if key == String::from_str("BitDepthConverter") {
        match BitDepthConverter::from_parameters(parameters) {
            Ok(c) => Ok(Node::BitDepthConverter(c)),
            Err(e) => Err(e),
        }
    } else if key == String::from_str("CinemaDngWriter") {
        match CinemaDngWriter::from_parameters(parameters) {
            Ok(w) => Ok(Node::CinemaDngWriter(w)),
            Err(e) => Err(e),
        }
    } else {
        Err(ConfigError::UnknownNode(key))
    }
}

} // verus!
