//! Chat commands: which command a message holds, decided by the regular
//! expressions that the bot has always used, checked in a fixed order.
use vstd::prelude::*;
use crate::pattern::{Pattern, regex_compiles, regex_matches, regex_capture};
use crate::text::{parse_unsigned, parse_u32, decimal, u32_to_decimal, lemma_parse_decimal_roundtrip};
use crate::teamspeak::{TSCommand, BOT_NAME};
use crate::chance::random_u32;
use std::sync::mpsc::Sender;

verus! {

/// A command found in a chat message.
#[derive(Debug)]
pub enum Command {
    /// `/kick <name>`: kick the TeamSpeak user(s) called `target` from the server.
    Kick { target: String },
    /// `/softkick <name>`: kick the TeamSpeak user(s) called `target` from their channel.
    SoftKick { target: String },
    /// `/poke <name>`: poke the TeamSpeak user(s) called `target`.
    Poke { target: String },
    /// `/pokeall <message>`: poke every TeamSpeak user with `message`.
    PokeAll { message: String },
    /// One of the webcam commands: fetch the image at `url` and post it as `file_name`.
    Webcam { url: String, file_name: String },
    /// `/rand <n>`: answer with a random number below `maximum`.
    Rand { maximum: u32 },
    /// `/whothere`: list who is online on TeamSpeak.
    WhoThere,
    /// `/surprise`: kick the configured surprise target from TeamSpeak.
    Surprise,
}

/// [`Command`] with its strings as character sequences.
pub enum CommandView {
    Kick(Seq<char>),
    SoftKick(Seq<char>),
    Poke(Seq<char>),
    PokeAll(Seq<char>),
    Webcam(Seq<char>, Seq<char>),
    Rand(u32),
    WhoThere,
    Surprise,
}

impl View for Command {
    type V = CommandView;

    open spec fn view(&self) -> CommandView {
        match self {
            Command::Kick { target } => CommandView::Kick(target@),
            Command::SoftKick { target } => CommandView::SoftKick(target@),
            Command::Poke { target } => CommandView::Poke(target@),
            Command::PokeAll { message } => CommandView::PokeAll(message@),
            Command::Webcam { url, file_name } => CommandView::Webcam(url@, file_name@),
            Command::Rand { maximum } => CommandView::Rand(*maximum),
            Command::WhoThere => CommandView::WhoThere,
            Command::Surprise => CommandView::Surprise,
        }
    }
}

/// Why a message could not be examined for commands.
#[derive(Clone, Copy, Debug, PartialEq, Eq, Structural)]
pub enum CommandError {
    /// One of the command patterns was refused by the regex engine.
    InvalidPattern,
    /// A command's test pattern matched but its capturing pattern did not.
    MissingCapture,
}

/// The kinds of command that carry one captured argument.
#[derive(Clone, Copy, Debug, PartialEq, Eq, Structural)]
pub enum TargetKind {
    Kick,
    SoftKick,
    Poke,
    PokeAll,
}

/// The result of one step of the examination: `Ok(None)` when the step's
/// pattern did not match and the next step is tried, `Ok(Some(c))` when it
/// matched and decided the answer `c`.
pub type StepView = Result<Option<Option<CommandView>>, CommandError>;

pub open spec fn opt_view(c: Option<Command>) -> Option<CommandView> {
    match c {
        Some(c) => Some(c@),
        None => None,
    }
}

/// Whether `pattern` compiles, and then whether it matches `text`.
pub open spec fn test_outcome(pattern: Seq<char>, text: Seq<char>) -> Result<bool, CommandError> {
    if regex_compiles(pattern) {
        Ok(regex_matches(pattern, text))
    } else {
        Err(CommandError::InvalidPattern)
    }
}

/// What capture group 1 of `pattern` holds in `text`; an error when the
/// pattern does not compile or does not match.
pub open spec fn group_outcome(pattern: Seq<char>, text: Seq<char>) -> Result<
    Option<Seq<char>>,
    CommandError,
> {
    if !regex_compiles(pattern) {
        Err(CommandError::InvalidPattern)
    } else {
        match regex_capture(pattern, text, 1) {
            Some(g) => Ok(g),
            None => Err(CommandError::MissingCapture),
        }
    }
}

/// Runs the test `test`; when it matched, the step decides `decided`.
pub open spec fn step(test: Result<bool, CommandError>, decided: Result<Option<CommandView>, CommandError>) -> StepView {
    match test {
        Err(e) => Err(e),
        Ok(false) => Ok(None),
        Ok(true) => match decided {
            Err(e) => Err(e),
            Ok(c) => Ok(Some(c)),
        },
    }
}

/// The first step that decides, else `rest`.
pub open spec fn or_else(first: StepView, rest: Result<Option<CommandView>, CommandError>) -> Result<Option<CommandView>, CommandError> {
    match first {
        Err(e) => Err(e),
        Ok(Some(c)) => Ok(c),
        Ok(None) => rest,
    }
}

pub open spec fn target_view(kind: TargetKind, arg: Seq<char>) -> CommandView {
    match kind {
        TargetKind::Kick => CommandView::Kick(arg),
        TargetKind::SoftKick => CommandView::SoftKick(arg),
        TargetKind::Poke => CommandView::Poke(arg),
        TargetKind::PokeAll => CommandView::PokeAll(arg),
    }
}

/// A command with one argument: the test pattern decides whether the step
/// applies, the capturing pattern's group 1 is the argument; no command when
/// the group took no part in the match.
pub open spec fn target_step(test: Seq<char>, capture: Seq<char>, kind: TargetKind, text: Seq<char>) -> StepView {
    step(
        test_outcome(test, text),
        match group_outcome(capture, text) {
            Err(e) => Err(e),
            Ok(Some(g)) => Ok(Some(target_view(kind, g))),
            Ok(None) => Ok(None),
        },
    )
}

/// A webcam command.
pub open spec fn webcam_step(test: Seq<char>, url: Seq<char>, file_name: Seq<char>, text: Seq<char>) -> StepView {
    step(test_outcome(test, text), Ok(Some(CommandView::Webcam(url, file_name))))
}

/// The `/rand` command: the captured number, 1000 when it does not parse as a `u32`.
pub open spec fn rand_step(text: Seq<char>) -> StepView {
    step(
        test_outcome(rand_pattern(), text),
        match group_outcome(rand_pattern(), text) {
            Err(e) => Err(e),
            Ok(Some(g)) => Ok(
                Some(
                    CommandView::Rand(
                        match parse_unsigned(g, u32::MAX as nat) {
                            Some(n) => n as u32,
                            None => 1000u32,
                        },
                    ),
                ),
            ),
            Ok(None) => Ok(None),
        },
    )
}

/// The `/kluet` command, also spelt `/kl\u{fc}t`.
pub open spec fn kluet_step(text: Seq<char>) -> StepView {
    match test_outcome("/kluet"@, text) {
        Err(e) => Err(e),
        Ok(true) => Ok(Some(Some(CommandView::Webcam(KLUET_URL@, "kluet.jpg"@)))),
        Ok(false) => webcam_step("/kl\u{fc}t"@, KLUET_URL@, "kluet.jpg"@, text),
    }
}

pub open spec fn rand_pattern() -> Seq<char> {
    "/rand (\\d*)"@
}

pub const HAMELN_URL: &'static str = "http://webcam.hameln.de/CGIProxy.fcgi?cmd=snapPicture2&usr=WebCam&pwd=Hameln2017";

pub const WESER_URL: &'static str = "http://webcam2.hameln.de/CGIProxy.fcgi?cmd=snapPicture2&usr=WebCam&pwd=Hameln2017";

pub const KLUET_URL: &'static str = "http://webcam3.hameln.de:8080/cgi-bin/api.cgi?cmd=Snap&channel=0&rs=wuuPhkmUCeI9WG7C&user=web&password=hameln";

pub const SCHROBI_URL: &'static str = "https://www.schrobenhausen.de/tools/webcams/feuerwehr/current.png";

pub const NEUBURG_URL: &'static str = "https://webcam.neuburg-donau.de/FoscamCamera_00626EA7EB36/snap/current.php";

pub const PFAFFEN_URL: &'static str = "https://video.pafunddu.de/webcam/paf_rathaus.jpg";

/// The command in a message with text `text`: the steps are tried in order,
/// and the first whose test pattern matches decides.
pub open spec fn command_in(text: Seq<char>) -> Result<Option<CommandView>, CommandError> {
    or_else(target_step("/kick [\\w ]*"@, "/kick ([\\w ]*)"@, TargetKind::Kick, text),
    or_else(target_step("/softkick [\\w ]*"@, "/softkick ([\\w ]*)"@, TargetKind::SoftKick, text),
    or_else(target_step("/poke [\\w ]*"@, "/poke ([\\w ]*)"@, TargetKind::Poke, text),
    or_else(target_step("/pokeall [\\w ]*"@, "/pokeall ([\\w ]*)"@, TargetKind::PokeAll, text),
    or_else(webcam_step("/hameln"@, HAMELN_URL@, "hameln.jpg"@, text),
    or_else(webcam_step("/weser"@, WESER_URL@, "weser.jpg"@, text),
    or_else(kluet_step(text),
    or_else(webcam_step("/schrobi"@, SCHROBI_URL@, "schrobi.jpg"@, text),
    or_else(webcam_step("/neuburg"@, NEUBURG_URL@, "neuburg.jpg"@, text),
    or_else(webcam_step("/pfaffen"@, PFAFFEN_URL@, "pfaffen.jpg"@, text),
    or_else(rand_step(text),
    or_else(step(test_outcome("/whothere"@, text), Ok(Some(CommandView::WhoThere))),
    or_else(step(test_outcome("/surprise"@, text), Ok(Some(CommandView::Surprise))),
    Ok(None))))))))))))))
}

/// Compiles `pattern` and tests it against `text`.
fn test_pattern(pattern: &str, text: &str) -> (r: Result<bool, CommandError>)
    ensures
        r == test_outcome(pattern@, text@),
{
    match Pattern::compile(pattern) {
        Ok(p) => Ok(p.is_match(text)),
        Err(_) => Err(CommandError::InvalidPattern),
    }
}

/// Compiles `pattern` and takes its capture group 1 in `text`.
fn first_group(pattern: &str, text: &str) -> (r: Result<Option<String>, CommandError>)
    ensures
        match r {
            Ok(g) => group_outcome(pattern@, text@) == Ok::<Option<Seq<char>>, CommandError>(g.deep_view()),
            Err(e) => group_outcome(pattern@, text@) == Err::<Option<Seq<char>>, CommandError>(e),
        },
{
    match Pattern::compile(pattern) {
        Ok(p) => match p.capture(text, 1) {
            Some(g) => Ok(g),
            None => Err(CommandError::MissingCapture),
        },
        Err(_) => Err(CommandError::InvalidPattern),
    }
}

fn make_target(kind: TargetKind, arg: String) -> (c: Command)
    ensures
        c@ == target_view(kind, arg@),
{
    match kind {
        TargetKind::Kick => Command::Kick { target: arg },
        TargetKind::SoftKick => Command::SoftKick { target: arg },
        TargetKind::Poke => Command::Poke { target: arg },
        TargetKind::PokeAll => Command::PokeAll { message: arg },
    }
}

/// Converts an executable step result to its view.
pub open spec fn step_view(r: Result<Option<Option<Command>>, CommandError>) -> StepView {
    match r {
        Err(e) => Err(e),
        Ok(None) => Ok(None),
        Ok(Some(c)) => Ok(Some(opt_view(c))),
    }
}

fn run_target_step(test: &str, capture: &str, kind: TargetKind, text: &str) -> (r: Result<Option<Option<Command>>, CommandError>)
    ensures
        step_view(r) == target_step(test@, capture@, kind, text@),
{
    match test_pattern(test, text) {
        Err(e) => Err(e),
        Ok(false) => Ok(None),
        Ok(true) => match first_group(capture, text) {
            Err(e) => Err(e),
            Ok(Some(g)) => Ok(Some(Some(make_target(kind, g)))),
            Ok(None) => Ok(Some(None)),
        },
    }
}

fn run_webcam_step(test: &str, url: &str, file_name: &str, text: &str) -> (r: Result<Option<Option<Command>>, CommandError>)
    ensures
        step_view(r) == webcam_step(test@, url@, file_name@, text@),
{
    match test_pattern(test, text) {
        Err(e) => Err(e),
        Ok(false) => Ok(None),
        Ok(true) => Ok(Some(Some(Command::Webcam { url: url.to_owned(), file_name: file_name.to_owned() }))),
    }
}

fn run_kluet_step(text: &str) -> (r: Result<Option<Option<Command>>, CommandError>)
    ensures
        step_view(r) == kluet_step(text@),
{
    match test_pattern("/kluet", text) {
        Err(e) => Err(e),
        Ok(true) => Ok(Some(Some(Command::Webcam { url: KLUET_URL.to_owned(), file_name: "kluet.jpg".to_owned() }))),
        Ok(false) => run_webcam_step("/kl\u{fc}t", KLUET_URL, "kluet.jpg", text),
    }
}

fn run_rand_step(text: &str) -> (r: Result<Option<Option<Command>>, CommandError>)
    ensures
        step_view(r) == rand_step(text@),
{
    match test_pattern("/rand (\\d*)", text) {
        Err(e) => Err(e),
        Ok(false) => Ok(None),
        Ok(true) => match first_group("/rand (\\d*)", text) {
            Err(e) => Err(e),
            Ok(Some(g)) => {
                let maximum = match parse_u32(g.as_str()) {
                    Some(n) => n,
                    None => 1000,
                };
                Ok(Some(Some(Command::Rand { maximum })))
            },
            Ok(None) => Ok(Some(None)),
        },
    }
}

fn run_plain_step(test: &str, command: Command, text: &str) -> (r: Result<Option<Option<Command>>, CommandError>)
    ensures
        step_view(r) == step(test_outcome(test@, text@), Ok(Some(command@))),
{
    match test_pattern(test, text) {
        Err(e) => Err(e),
        Ok(false) => Ok(None),
        Ok(true) => Ok(Some(Some(command))),
    }
}

/// The view of a result of [`parse_command`].
pub open spec fn outcome_view(r: Result<Option<Command>, CommandError>) -> Result<Option<CommandView>, CommandError> {
    match r {
        Err(e) => Err(e),
        Ok(c) => Ok(opt_view(c)),
    }
}

/// Examines the text of a chat message for a command, trying the command
/// patterns in their fixed order; `Ok(None)` when no command applies. An
/// error means a pattern could not be used (see [`CommandError`]).
pub fn parse_command(data: &str) -> (r: Result<Option<Command>, CommandError>)
    ensures
        outcome_view(r) == command_in(data@),
{
    match run_target_step("/kick [\\w ]*", "/kick ([\\w ]*)", TargetKind::Kick, data) {
        Err(e) => return Err(e),
        Ok(Some(c)) => return Ok(c),
        Ok(None) => {},
    }
    match run_target_step("/softkick [\\w ]*", "/softkick ([\\w ]*)", TargetKind::SoftKick, data) {
        Err(e) => return Err(e),
        Ok(Some(c)) => return Ok(c),
        Ok(None) => {},
    }
    match run_target_step("/poke [\\w ]*", "/poke ([\\w ]*)", TargetKind::Poke, data) {
        Err(e) => return Err(e),
        Ok(Some(c)) => return Ok(c),
        Ok(None) => {},
    }
    match run_target_step("/pokeall [\\w ]*", "/pokeall ([\\w ]*)", TargetKind::PokeAll, data) {
        Err(e) => return Err(e),
        Ok(Some(c)) => return Ok(c),
        Ok(None) => {},
    }
    match run_webcam_step("/hameln", HAMELN_URL, "hameln.jpg", data) {
        Err(e) => return Err(e),
        Ok(Some(c)) => return Ok(c),
        Ok(None) => {},
    }
    match run_webcam_step("/weser", WESER_URL, "weser.jpg", data) {
        Err(e) => return Err(e),
        Ok(Some(c)) => return Ok(c),
        Ok(None) => {},
    }
    match run_kluet_step(data) {
        Err(e) => return Err(e),
        Ok(Some(c)) => return Ok(c),
        Ok(None) => {},
    }
    match run_webcam_step("/schrobi", SCHROBI_URL, "schrobi.jpg", data) {
        Err(e) => return Err(e),
        Ok(Some(c)) => return Ok(c),
        Ok(None) => {},
    }
    match run_webcam_step("/neuburg", NEUBURG_URL, "neuburg.jpg", data) {
        Err(e) => return Err(e),
        Ok(Some(c)) => return Ok(c),
        Ok(None) => {},
    }
    match run_webcam_step("/pfaffen", PFAFFEN_URL, "pfaffen.jpg", data) {
        Err(e) => return Err(e),
        Ok(Some(c)) => return Ok(c),
        Ok(None) => {},
    }
    match run_rand_step(data) {
        Err(e) => return Err(e),
        Ok(Some(c)) => return Ok(c),
        Ok(None) => {},
    }
    match run_plain_step("/whothere", Command::WhoThere, data) {
        Err(e) => return Err(e),
        Ok(Some(c)) => return Ok(c),
        Ok(None) => {},
    }
    match run_plain_step("/surprise", Command::Surprise, data) {
        Err(e) => return Err(e),
        Ok(Some(c)) => return Ok(c),
        Ok(None) => {},
    }
    Ok(None)
}

/// The pattern of links that the bot removes from the chat.
pub const TIKTOK_PATTERN: &'static str = "tiktok.com";

/// Whether a message with text `data` links to TikTok (and is to be deleted).
pub fn mentions_tiktok(data: &str) -> (r: Result<bool, CommandError>)
    ensures
        r == test_outcome(TIKTOK_PATTERN@, data@),
{
    match Pattern::compile(TIKTOK_PATTERN) {
        Ok(p) => Ok(p.capture(data, 0).is_some()),
        Err(_) => Err(CommandError::InvalidPattern),
    }
}

/// The answer to `/rand` for the drawn number `random`: the decimal form of
/// `random % maximum`.
pub fn rand_answer_for(random: u32, maximum: u32) -> (s: String)
    requires
        maximum > 0,
    ensures
        s@ == decimal((random % maximum) as nat),
{
    u32_to_decimal(random % maximum)
}

/// The answer to `/rand`: a random number below `maximum`, in decimal.
pub fn rand_answer(maximum: u32) -> (s: String)
    requires
        maximum > 0,
    ensures
        exists|v: u32| v < maximum && s@ == decimal(v as nat),
{
    let random = random_u32();
    let s = rand_answer_for(random, maximum);
    assert(random % maximum < maximum);
    s
}

impl Command {
    /// Whether the message counts as handled once the command was carried
    /// out; `succeeded` tells whether its outside work succeeded (the webcam
    /// image was fetched, or the TeamSpeak handler answered). Commands that
    /// only pass a request on count as handled in any case.
    pub fn handled(&self, succeeded: bool) -> (b: bool)
        ensures
            b == match self {
                Command::Webcam { .. } | Command::WhoThere | Command::Surprise => succeeded,
                _ => true,
            },
    {
        match self {
            Command::Webcam { .. } | Command::WhoThere | Command::Surprise => succeeded,
            _ => true,
        }
    }

    /// The request to the TeamSpeak handler for the commands that act on
    /// TeamSpeak without an answer: they act under the bot's own name and,
    /// for kicks and pokes, with an empty message.
    pub fn teamspeak_request(&self) -> (r: Option<TSCommand>)
        ensures
            match self {
                Command::Kick { target } => r matches Some(TSCommand::UserKick(t, u, m))
                    && t@ == target@ && u@ == BOT_NAME@ && m@ == Seq::<char>::empty(),
                Command::SoftKick { target } => r matches Some(TSCommand::UserChannelKick(t, u, m))
                    && t@ == target@ && u@ == BOT_NAME@ && m@ == Seq::<char>::empty(),
                Command::Poke { target } => r matches Some(TSCommand::UserPoke(t, u, m))
                    && t@ == target@ && u@ == BOT_NAME@ && m@ == Seq::<char>::empty(),
                Command::PokeAll { message } => r matches Some(TSCommand::ServerPokeAll(u, m))
                    && u@ == BOT_NAME@ && m@ == message@,
                _ => r is None,
            },
    {
        match self {
            Command::Kick { target } => Some(TSCommand::UserKick(target.clone(), BOT_NAME.to_owned(), String::new())),
            Command::SoftKick { target } => Some(
                TSCommand::UserChannelKick(target.clone(), BOT_NAME.to_owned(), String::new()),
            ),
            Command::Poke { target } => Some(TSCommand::UserPoke(target.clone(), BOT_NAME.to_owned(), String::new())),
            Command::PokeAll { message } => Some(TSCommand::ServerPokeAll(BOT_NAME.to_owned(), message.clone())),
            _ => None,
        }
    }

    /// The request to the TeamSpeak handler for the commands that wait for
    /// its answer on `answer`.
    pub fn answered_request(&self, answer: Sender<String>) -> (r: Option<TSCommand>)
        ensures
            match self {
                Command::WhoThere => r == Some(TSCommand::ServerUsersOnline(answer)),
                Command::Surprise => r == Some(TSCommand::Surprise(answer)),
                _ => r is None,
            },
    {
        match self {
            Command::WhoThere => Some(TSCommand::ServerUsersOnline(answer)),
            Command::Surprise => Some(TSCommand::Surprise(answer)),
            _ => None,
        }
    }
}

/// `pattern` compiles and matches `text`.
pub open spec fn pattern_hits(pattern: Seq<char>, text: Seq<char>) -> bool {
    regex_compiles(pattern) && regex_matches(pattern, text)
}

/// `pattern` compiles and does not match `text`.
pub open spec fn pattern_misses(pattern: Seq<char>, text: Seq<char>) -> bool {
    regex_compiles(pattern) && !regex_matches(pattern, text)
}

/// None of the four commands with an argument applies to `text`.
pub open spec fn no_argument_command(text: Seq<char>) -> bool {
    &&& pattern_misses("/kick [\\w ]*"@, text)
    &&& pattern_misses("/softkick [\\w ]*"@, text)
    &&& pattern_misses("/poke [\\w ]*"@, text)
    &&& pattern_misses("/pokeall [\\w ]*"@, text)
}

/// No command with an argument and no webcam command applies to `text`.
pub open spec fn no_argument_or_webcam_command(text: Seq<char>) -> bool {
    &&& no_argument_command(text)
    &&& pattern_misses("/hameln"@, text)
    &&& pattern_misses("/weser"@, text)
    &&& pattern_misses("/kluet"@, text)
    &&& pattern_misses("/kl\u{fc}t"@, text)
    &&& pattern_misses("/schrobi"@, text)
    &&& pattern_misses("/neuburg"@, text)
    &&& pattern_misses("/pfaffen"@, text)
}

/// Law: `/kick <name>` kicks the name that group 1 of `/kick ([\w ]*)`
/// captures: word characters and spaces, so a full name with spaces.
pub proof fn lemma_kick_target(text: Seq<char>, name: Seq<char>)
    requires
        pattern_hits("/kick [\\w ]*"@, text),
        regex_compiles("/kick ([\\w ]*)"@),
        regex_capture("/kick ([\\w ]*)"@, text, 1) == Some(Some(name)),
    ensures
        command_in(text) == Ok::<Option<CommandView>, CommandError>(Some(CommandView::Kick(name))),
{
}

/// Law: `/softkick <name>`, when no `/kick` applies, kicks from the channel
/// the name that group 1 of `/softkick ([\w ]*)` captures.
pub proof fn lemma_softkick_target(text: Seq<char>, name: Seq<char>)
    requires
        pattern_misses("/kick [\\w ]*"@, text),
        pattern_hits("/softkick [\\w ]*"@, text),
        regex_compiles("/softkick ([\\w ]*)"@),
        regex_capture("/softkick ([\\w ]*)"@, text, 1) == Some(Some(name)),
    ensures
        command_in(text) == Ok::<Option<CommandView>, CommandError>(Some(CommandView::SoftKick(name))),
{
}

/// Law: `/poke <name>`, when no kick applies, pokes the name that group 1 of
/// `/poke ([\w ]*)` captures: word characters and spaces, as for `/kick`.
pub proof fn lemma_poke_target(text: Seq<char>, name: Seq<char>)
    requires
        pattern_misses("/kick [\\w ]*"@, text),
        pattern_misses("/softkick [\\w ]*"@, text),
        pattern_hits("/poke [\\w ]*"@, text),
        regex_compiles("/poke ([\\w ]*)"@),
        regex_capture("/poke ([\\w ]*)"@, text, 1) == Some(Some(name)),
    ensures
        command_in(text) == Ok::<Option<CommandView>, CommandError>(Some(CommandView::Poke(name))),
{
}

/// Law: `/pokeall <message>`, when no kick or single poke applies, pokes
/// everyone with what group 1 of `/pokeall ([\w ]*)` captures.
pub proof fn lemma_pokeall_message(text: Seq<char>, message: Seq<char>)
    requires
        pattern_misses("/kick [\\w ]*"@, text),
        pattern_misses("/softkick [\\w ]*"@, text),
        pattern_misses("/poke [\\w ]*"@, text),
        pattern_hits("/pokeall [\\w ]*"@, text),
        regex_compiles("/pokeall ([\\w ]*)"@),
        regex_capture("/pokeall ([\\w ]*)"@, text, 1) == Some(Some(message)),
    ensures
        command_in(text) == Ok::<Option<CommandView>, CommandError>(Some(CommandView::PokeAll(message))),
{
}

/// Law: each webcam command posts the picture of its own camera. The first of
/// `/hameln`, `/weser`, `/kluet` (or `/kl\u{fc}t`), `/schrobi`, `/neuburg`,
/// `/pfaffen` that the message holds decides, when no command with an
/// argument applies.
pub proof fn lemma_webcam_cameras(text: Seq<char>)
    requires
        no_argument_command(text),
    ensures
        pattern_hits("/hameln"@, text) ==> command_in(text) == Ok::<Option<CommandView>, CommandError>(
            Some(
                CommandView::Webcam(
                    "http://webcam.hameln.de/CGIProxy.fcgi?cmd=snapPicture2&usr=WebCam&pwd=Hameln2017"@,
                    "hameln.jpg"@,
                ),
            ),
        ),
        pattern_misses("/hameln"@, text) && pattern_hits("/weser"@, text) ==> command_in(text) == Ok::<
            Option<CommandView>,
            CommandError,
        >(
            Some(
                CommandView::Webcam(
                    "http://webcam2.hameln.de/CGIProxy.fcgi?cmd=snapPicture2&usr=WebCam&pwd=Hameln2017"@,
                    "weser.jpg"@,
                ),
            ),
        ),
        pattern_misses("/hameln"@, text) && pattern_misses("/weser"@, text) && (pattern_hits("/kluet"@, text)
            || (pattern_misses("/kluet"@, text) && pattern_hits("/kl\u{fc}t"@, text))) ==> command_in(text)
            == Ok::<Option<CommandView>, CommandError>(
            Some(
                CommandView::Webcam(
                    "http://webcam3.hameln.de:8080/cgi-bin/api.cgi?cmd=Snap&channel=0&rs=wuuPhkmUCeI9WG7C&user=web&password=hameln"@,
                    "kluet.jpg"@,
                ),
            ),
        ),
        pattern_misses("/hameln"@, text) && pattern_misses("/weser"@, text) && pattern_misses("/kluet"@, text)
            && pattern_misses("/kl\u{fc}t"@, text) && pattern_hits("/schrobi"@, text) ==> command_in(text)
            == Ok::<Option<CommandView>, CommandError>(
            Some(
                CommandView::Webcam(
                    "https://www.schrobenhausen.de/tools/webcams/feuerwehr/current.png"@,
                    "schrobi.jpg"@,
                ),
            ),
        ),
        pattern_misses("/hameln"@, text) && pattern_misses("/weser"@, text) && pattern_misses("/kluet"@, text)
            && pattern_misses("/kl\u{fc}t"@, text) && pattern_misses("/schrobi"@, text) && pattern_hits(
            "/neuburg"@,
            text,
        ) ==> command_in(text) == Ok::<Option<CommandView>, CommandError>(
            Some(
                CommandView::Webcam(
                    "https://webcam.neuburg-donau.de/FoscamCamera_00626EA7EB36/snap/current.php"@,
                    "neuburg.jpg"@,
                ),
            ),
        ),
        pattern_misses("/hameln"@, text) && pattern_misses("/weser"@, text) && pattern_misses("/kluet"@, text)
            && pattern_misses("/kl\u{fc}t"@, text) && pattern_misses("/schrobi"@, text) && pattern_misses(
            "/neuburg"@,
            text,
        ) && pattern_hits("/pfaffen"@, text) ==> command_in(text) == Ok::<Option<CommandView>, CommandError>(
            Some(CommandView::Webcam("https://video.pafunddu.de/webcam/paf_rathaus.jpg"@, "pfaffen.jpg"@)),
        ),
{
}

/// Law: `/rand <digits>`, when no earlier command applies, draws below the
/// number that group 1 of `/rand (\d*)` captures, read as a `u32`; only text
/// that does not read as a `u32` falls back to 1000.
pub proof fn lemma_rand_maximum(text: Seq<char>, digits: Seq<char>)
    requires
        no_argument_or_webcam_command(text),
        pattern_hits("/rand (\\d*)"@, text),
        regex_capture("/rand (\\d*)"@, text, 1) == Some(Some(digits)),
    ensures
        parse_unsigned(digits, u32::MAX as nat) matches Some(n) ==> command_in(text) == Ok::<
            Option<CommandView>,
            CommandError,
        >(Some(CommandView::Rand(n as u32))),
        parse_unsigned(digits, u32::MAX as nat) is None ==> command_in(text) == Ok::<
            Option<CommandView>,
            CommandError,
        >(Some(CommandView::Rand(1000))),
{
}

/// Law: when `/rand ` is followed by the decimal form of a `u32` `n` (and
/// the capture is those digits), the maximum is exactly `n`.
pub proof fn lemma_rand_decimal(text: Seq<char>, n: u32)
    requires
        no_argument_or_webcam_command(text),
        pattern_hits("/rand (\\d*)"@, text),
        regex_capture("/rand (\\d*)"@, text, 1) == Some(Some(decimal(n as nat))),
    ensures
        command_in(text) == Ok::<Option<CommandView>, CommandError>(Some(CommandView::Rand(n))),
{
    lemma_parse_decimal_roundtrip(n as nat, u32::MAX as nat);
    lemma_rand_maximum(text, decimal(n as nat));
}

/// Law: `/whothere` and `/surprise` are recognised when nothing earlier applies.
pub proof fn lemma_teamspeak_queries(text: Seq<char>)
    requires
        no_argument_or_webcam_command(text),
        pattern_misses("/rand (\\d*)"@, text),
    ensures
        pattern_hits("/whothere"@, text) ==> command_in(text) == Ok::<Option<CommandView>, CommandError>(
            Some(CommandView::WhoThere),
        ),
        pattern_misses("/whothere"@, text) && pattern_hits("/surprise"@, text) ==> command_in(text) == Ok::<
            Option<CommandView>,
            CommandError,
        >(Some(CommandView::Surprise)),
        pattern_misses("/whothere"@, text) && pattern_misses("/surprise"@, text) ==> command_in(text) == Ok::<
            Option<CommandView>,
            CommandError,
        >(None),
{
}

/// Law: a message is a TikTok link exactly when the regex `tiktok.com`
/// matches somewhere in it.
pub proof fn lemma_tiktok_pattern(text: Seq<char>)
    ensures
        test_outcome(TIKTOK_PATTERN@, text) == (if regex_compiles("tiktok.com"@) {
            Ok::<bool, CommandError>(regex_matches("tiktok.com"@, text))
        } else {
            Err(CommandError::InvalidPattern)
        }),
{
}

} // verus!
