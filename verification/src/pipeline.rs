//! The audio pipeline: what is handed to the external mixing process, and
//! what is made of its answer.
//!
//! The process itself is run by the caller. Here stand the audios of a
//! session, the argument lists that select an operation, the names of the
//! streams on which the process reads its inputs, and the rule that turns
//! the end of a run into bytes or into `PipelineFailure`.
//!
//! An operation on one audio reads it from the standard input. A blend
//! takes one or more audios and reads each from a stream of its own, a
//! named pipe that the caller makes, under the name given here, in the
//! directory in which it runs the process.

use vstd::prelude::*;
use vstd::string::*;
use crate::error::ErrorKind;

verus! {

/// The mathematical model of one audio.
pub struct AudioModel {
    pub user_name: Seq<char>,
    pub is_master_audio: bool,
    pub start_time: u32,
    pub buffer: Seq<u8>,
}

/// One guest's audio: who recorded it, whether it is the master track, the
/// second at which it starts, and its encoded bytes.
pub struct Audio {
    user_name: String,
    is_master_audio: bool,
    start_time: u32,
    buffer: Vec<u8>,
}

impl View for Audio {
    type V = AudioModel;

    closed spec fn view(&self) -> AudioModel {
        AudioModel {
            user_name: self.user_name@,
            is_master_audio: self.is_master_audio,
            start_time: self.start_time,
            buffer: self.buffer@,
        }
    }
}

impl Audio {
    /// Makes an audio of its four parts.
    pub fn new(
        user_name: String,
        is_master_audio: bool,
        start_time: u32,
        buffer: Vec<u8>,
    ) -> (audio: Audio)
        ensures
            audio@ == (AudioModel {
                user_name: user_name@,
                is_master_audio,
                start_time,
                buffer: buffer@,
            }),
    {
        Audio { user_name, is_master_audio, start_time, buffer }
    }

    /// The name of the guest who recorded the audio.
    pub fn user_name(&self) -> (name: &str)
        ensures
            name@ == self@.user_name,
    {
        self.user_name.as_str()
    }

    /// Whether the audio is the master track.
    pub fn is_master_audio(&self) -> (master: bool)
        ensures
            master == self@.is_master_audio,
    {
        self.is_master_audio
    }

    /// The second at which the audio starts.
    pub fn start_time(&self) -> (seconds: u32)
        ensures
            seconds == self@.start_time,
    {
        self.start_time
    }

    /// The encoded bytes of the audio.
    pub fn buffer(&self) -> (bytes: &Vec<u8>)
        ensures
            bytes@ == self@.buffer,
    {
        &self.buffer
    }
}

/// The audios of one recording session, in the order in which they were
/// added.
pub struct Session {
    audios: Vec<Audio>,
}

impl View for Session {
    type V = Seq<AudioModel>;

    closed spec fn view(&self) -> Seq<AudioModel> {
        Seq::new(self.audios@.len(), |i: int| self.audios@[i]@)
    }
}

impl Session {
    /// A session without audios.
    pub fn new() -> (session: Session)
        ensures
            session@ == Seq::<AudioModel>::empty(),
    {
        Session { audios: Vec::new() }
    }

    /// Adds `audio` after the audios that the session already has.
    pub fn new_audio(&mut self, audio: Audio)
        ensures
            final(self)@ == old(self)@.push(audio@),
    {
        self.audios.push(audio)
    }

    /// The number of audios in the session.
    pub fn len(&self) -> (count: usize)
        ensures
            count == self@.len(),
    {
        self.audios.len()
    }

    /// The audio that was added as number `index`, counted from zero.
    pub fn audio(&self, index: usize) -> (audio: Option<&Audio>)
        ensures
            index < self@.len() ==> (audio matches Some(a) && a@ == self@[index as int]),
            index >= self@.len() ==> audio is None,
    {
        if index < self.audios.len() {
            Some(&self.audios[index])
        } else {
            None
        }
    }
}

/// An operation of the external mixing process.
#[derive(Clone, Copy, Debug, PartialEq, Eq, Structural)]
pub enum PipelineOp {
    /// Delay one audio by a number of seconds.
    Delay { seconds: u32 },
    /// Mix `inputs` audios into one, as long as the first of them.
    Blend { inputs: usize },
    /// Turn one audio from MP3 into WAV.
    ToWav,
}

/// The character that writes the digit `d`.
pub open spec fn digit_of(d: nat) -> char
    recommends
        d < 10,
{
    ('0' as u8 + d) as u8 as char
}

/// The decimal digits of `n`, without leading zeros.
pub open spec fn decimal(n: nat) -> Seq<char>
    decreases n,
{
    if n < 10 {
        seq![digit_of(n)]
    } else {
        decimal(n / 10).push(digit_of(n % 10))
    }
}

/// The filter that delays every channel of an audio by `seconds`, which
/// the process takes in milliseconds.
pub open spec fn delay_filter_of(seconds: u32) -> Seq<char> {
    "adelay="@ + decimal(seconds as nat * 1000) + "|"@ + decimal(seconds as nat * 1000)
        + ":all=true"@
}

/// The name of the stream from which a blend reads its input number
/// `index`, counted from zero: a stream of its own for every input.
pub open spec fn input_stream_of(index: nat) -> Seq<char> {
    "input"@ + decimal(index)
}

/// The arguments that announce the first `count` inputs of a blend: for
/// each input in turn, its format and the name of its stream.
pub open spec fn input_arguments_of(count: nat) -> Seq<Seq<char>>
    decreases count,
{
    if count == 0 {
        Seq::empty()
    } else {
        input_arguments_of((count - 1) as nat) + seq![
            "-f"@,
            "mp3"@,
            "-i"@,
            input_stream_of((count - 1) as nat),
        ]
    }
}

/// The filter that mixes `inputs` audios into one, as long as the first.
pub open spec fn mix_filter_of(inputs: nat) -> Seq<char> {
    "amix=inputs="@ + decimal(inputs) + ":duration=first"@
}

/// The arguments that select `op`.
///
/// A delay and a conversion read their one audio as MP3 from the standard
/// input. A blend reads each of its audios as MP3 from a stream of its own
/// and asks for a mix of as many inputs as it has. Every operation writes
/// its result to the standard output, as MP3 unless it asks for WAV.
pub open spec fn arguments_of(op: PipelineOp) -> Seq<Seq<char>> {
    match op {
        PipelineOp::Delay { seconds } => seq![
            "-f"@,
            "mp3"@,
            "-i"@,
            "pipe:0"@,
            "-af"@,
            delay_filter_of(seconds),
            "-f"@,
            "mp3"@,
            "pipe:1"@,
        ],
        PipelineOp::Blend { inputs } => input_arguments_of(inputs as nat) + seq![
            "-filter_complex"@,
            mix_filter_of(inputs as nat),
            "-f"@,
            "mp3"@,
            "pipe:1"@,
        ],
        PipelineOp::ToWav => seq!["-f"@, "mp3"@, "-i"@, "pipe:0"@, "-f"@, "wav"@, "pipe:1"@],
    }
}

/// Every number is written with at least one digit, and every number from
/// ten on with at least two.
pub proof fn lemma_decimal_has_digits(n: nat)
    ensures
        decimal(n).len() >= 1,
        n >= 10 ==> decimal(n).len() >= 2,
    decreases n,
{
    if n >= 10 {
        lemma_decimal_has_digits(n / 10);
    }
}

/// Different numbers are written differently.
pub proof fn lemma_decimal_is_injective(a: nat, b: nat)
    requires
        decimal(a) == decimal(b),
    ensures
        a == b,
    decreases a,
{
    lemma_decimal_has_digits(a);
    lemma_decimal_has_digits(b);
    if a >= 10 && b >= 10 {
        assert(decimal(a).drop_last() =~= decimal(a / 10));
        assert(decimal(b).drop_last() =~= decimal(b / 10));
        assert(decimal(a).last() == digit_of(a % 10));
        assert(decimal(b).last() == digit_of(b % 10));
        lemma_decimal_is_injective(a / 10, b / 10);
    } else if a < 10 && b < 10 {
        assert(decimal(a)[0] == digit_of(a));
        assert(decimal(b)[0] == digit_of(b));
    }
}

/// Every input of a blend has a stream to itself: two inputs never read
/// from a stream of the same name.
pub proof fn lemma_input_streams_are_distinct(i: nat, j: nat)
    requires
        input_stream_of(i) == input_stream_of(j),
    ensures
        i == j,
{
    let head = "input"@;
    assert(input_stream_of(i).skip(head.len() as int) =~= decimal(i));
    assert(input_stream_of(j).skip(head.len() as int) =~= decimal(j));
    lemma_decimal_is_injective(i, j);
}

/// The arguments of a blend announce every one of its inputs, in order,
/// each as MP3 on the stream of its own, and ask for a mix of exactly as
/// many inputs.
pub proof fn lemma_blend_names_every_input(inputs: usize, i: int)
    requires
        0 <= i < inputs,
    ensures
        ({
            let args = arguments_of(PipelineOp::Blend { inputs });
            &&& args.len() == 4 * inputs + 5
            &&& args[4 * i] == "-f"@
            &&& args[4 * i + 1] == "mp3"@
            &&& args[4 * i + 2] == "-i"@
            &&& args[4 * i + 3] == input_stream_of(i as nat)
            &&& args[4 * inputs as int] == "-filter_complex"@
            &&& args[4 * inputs + 1] == mix_filter_of(inputs as nat)
        }),
{
    lemma_input_arguments(inputs as nat, i);
}

/// The arguments that announce `count` inputs hold, for each of them in
/// turn, the four that announce it.
proof fn lemma_input_arguments(count: nat, i: int)
    requires
        0 <= i < count,
    ensures
        input_arguments_of(count).len() == 4 * count,
        input_arguments_of(count)[4 * i] == "-f"@,
        input_arguments_of(count)[4 * i + 1] == "mp3"@,
        input_arguments_of(count)[4 * i + 2] == "-i"@,
        input_arguments_of(count)[4 * i + 3] == input_stream_of(i as nat),
    decreases count,
{
    lemma_input_arguments_length((count - 1) as nat);
    if i < count - 1 {
        lemma_input_arguments((count - 1) as nat, i);
    }
}

/// Four arguments announce each input.
proof fn lemma_input_arguments_length(count: nat)
    ensures
        input_arguments_of(count).len() == 4 * count,
    decreases count,
{
    if count > 0 {
        lemma_input_arguments_length((count - 1) as nat);
    }
}

/// The texts that a list of strings holds, in order.
pub open spec fn texts(strings: Seq<String>) -> Seq<Seq<char>> {
    Seq::new(strings.len(), |i: int| strings[i]@)
}

/// The one-character text that writes the digit `d`.
fn digit_text(d: u64) -> (text: &'static str)
    requires
        d < 10,
    ensures
        text@ == seq![digit_of(d as nat)],
{
    proof {
        reveal_strlit("0");
        reveal_strlit("1");
        reveal_strlit("2");
        reveal_strlit("3");
        reveal_strlit("4");
        reveal_strlit("5");
        reveal_strlit("6");
        reveal_strlit("7");
        reveal_strlit("8");
        reveal_strlit("9");
    }
    let text = if d == 0 {
        "0"
    } else if d == 1 {
        "1"
    } else if d == 2 {
        "2"
    } else if d == 3 {
        "3"
    } else if d == 4 {
        "4"
    } else if d == 5 {
        "5"
    } else if d == 6 {
        "6"
    } else if d == 7 {
        "7"
    } else if d == 8 {
        "8"
    } else {
        "9"
    };
    text
}

/// Writes `n` in decimal digits.
pub fn decimal_text(n: u64) -> (text: String)
    ensures
        text@ == decimal(n as nat),
    decreases n,
{
    if n < 10 {
        String::from_str(digit_text(n))
    } else {
        let mut text = decimal_text(n / 10);
        text.append(digit_text(n % 10));
        text
    }
}

/// Writes the filter that delays an audio by `seconds`.
pub fn delay_filter(seconds: u32) -> (filter: String)
    ensures
        filter@ == delay_filter_of(seconds),
{
    let millis: u64 = seconds as u64 * 1000;
    let digits = decimal_text(millis);
    let mut filter = String::from_str("adelay=");
    filter.append(digits.as_str());
    filter.append("|");
    filter.append(digits.as_str());
    filter.append(":all=true");
    filter
}

/// Writes the name of the stream of a blend's input number `index`.
pub fn input_stream(index: usize) -> (name: String)
    ensures
        name@ == input_stream_of(index as nat),
{
    let mut name = String::from_str("input");
    name.append(decimal_text(index as u64).as_str());
    name
}

/// Writes the filter that mixes `inputs` audios.
pub fn mix_filter(inputs: usize) -> (filter: String)
    ensures
        filter@ == mix_filter_of(inputs as nat),
{
    let mut filter = String::from_str("amix=inputs=");
    filter.append(decimal_text(inputs as u64).as_str());
    filter.append(":duration=first");
    filter
}

/// Lists the arguments that select `op`.
pub fn arguments(op: PipelineOp) -> (args: Vec<String>)
    ensures
        texts(args@) == arguments_of(op),
{
    let mut args: Vec<String> = Vec::new();
    match op {
        PipelineOp::Delay { seconds } => {
            args.push(String::from_str("-f"));
            args.push(String::from_str("mp3"));
            args.push(String::from_str("-i"));
            args.push(String::from_str("pipe:0"));
            args.push(String::from_str("-af"));
            args.push(delay_filter(seconds));
            args.push(String::from_str("-f"));
            args.push(String::from_str("mp3"));
        },
        PipelineOp::Blend { inputs } => {
            let mut i: usize = 0;
            while i < inputs
                invariant
                    i <= inputs,
                    texts(args@) == input_arguments_of(i as nat),
                decreases inputs - i,
            {
                args.push(String::from_str("-f"));
                args.push(String::from_str("mp3"));
                args.push(String::from_str("-i"));
                args.push(input_stream(i));
                i += 1;
            }
            args.push(String::from_str("-filter_complex"));
            args.push(mix_filter(inputs));
            args.push(String::from_str("-f"));
            args.push(String::from_str("mp3"));
        },
        PipelineOp::ToWav => {
            args.push(String::from_str("-f"));
            args.push(String::from_str("mp3"));
            args.push(String::from_str("-i"));
            args.push(String::from_str("pipe:0"));
            args.push(String::from_str("-f"));
            args.push(String::from_str("wav"));
        },
    }
    args.push(String::from_str("pipe:1"));
    args
}

/// Prepares a blend of `audio_buffers`: the operation that mixes as many
/// inputs as there are buffers, and the buffers themselves, all of them and
/// in their order. Input number `i` of the blend is buffer number `i`.
///
/// A blend needs at least one audio: an empty list is a `PipelineFailure`.
pub fn blend_inputs(
    audio_buffers: Vec<Vec<u8>>,
) -> (inputs: Result<(PipelineOp, Vec<Vec<u8>>), ErrorKind>)
    ensures
        audio_buffers@.len() == 0 ==> inputs == Err::<(PipelineOp, Vec<Vec<u8>>), ErrorKind>(
            ErrorKind::PipelineFailure,
        ),
        audio_buffers@.len() > 0 ==> inputs == Ok::<(PipelineOp, Vec<Vec<u8>>), ErrorKind>(
            (PipelineOp::Blend { inputs: audio_buffers.len() }, audio_buffers),
        ),
{
    if audio_buffers.len() == 0 {
        return Err(ErrorKind::PipelineFailure);
    }
    Ok((PipelineOp::Blend { inputs: audio_buffers.len() }, audio_buffers))
}

/// Makes the result of a run of the process.
///
/// `exited_cleanly` tells whether the process ended with status zero;
/// `output` is what its output stream gave when read to the end, or `None`
/// where reading failed. A run gives its output only if both went well; in
/// every other case it is a `PipelineFailure` and what was read is dropped.
pub fn pipeline_result(
    exited_cleanly: bool,
    output: Option<Vec<u8>>,
) -> (result: Result<Vec<u8>, ErrorKind>)
    ensures
        result == match output {
            Some(bytes) if exited_cleanly => Ok::<Vec<u8>, ErrorKind>(bytes),
            _ => Err::<Vec<u8>, ErrorKind>(ErrorKind::PipelineFailure),
        },
{
    match output {
        Some(bytes) => if exited_cleanly {
            Ok(bytes)
        } else {
            Err(ErrorKind::PipelineFailure)
        },
        None => Err(ErrorKind::PipelineFailure),
    }
}

} // verus!
