//! The command line: which files to recompress, and how.
//!
//! A token that does not begin with `-` names a file. `-z` or `--zopfli`
//! selects the zopfli encoder, `-h` or `--help` asks for the usage text, and
//! `-i<N>`, `--iterations<N>` or `--iterations=<N>` sets zopfli's iteration
//! count. Tokens are read from left to right, and the first request for help
//! or the first bad option ends the reading.

use crate::number::{integer_value, parse_integer};
use vstd::prelude::*;
use vstd::slice::slice_subrange;
use vstd::string::StringSliceAdditionalSpecFns;

verus! {

/// The byte `=`.
pub const EQUALS: u8 = 0x3d;

/// Why a command line was refused.
#[derive(Clone, Copy, Debug, PartialEq, Eq, Structural)]
pub enum ArgError {
    /// An iteration count that is no decimal integer in the range of `i32`.
    InvalidNumber,
    /// An iteration count that is zero or negative.
    NotPositive,
    /// A token that begins with `-` and is no option.
    UnknownOption,
    /// No file was named.
    NoFiles,
}

/// Whether `text` begins with `prefix`.
pub open spec fn has_prefix(text: Seq<u8>, prefix: Seq<u8>) -> bool {
    prefix.len() <= text.len() && text.subrange(0, prefix.len() as int) == prefix
}

/// Whether two byte strings are the same.
fn bytes_equal(a: &[u8], b: &[u8]) -> (r: bool)
    ensures
        r <==> a@ == b@,
{
    if a.len() != b.len() {
        return false;
    }
    let mut i: usize = 0;
    while i < a.len()
        invariant
            i <= a.len(),
            a.len() == b.len(),
            a@.take(i as int) == b@.take(i as int),
        decreases a.len() - i,
    {
        if a[i] != b[i] {
            return false;
        }
        assert(a@.take(i + 1) =~= a@.take(i as int).push(a@[i as int]));
        assert(b@.take(i + 1) =~= b@.take(i as int).push(b@[i as int]));
        i += 1;
    }
    assert(a@.take(i as int) =~= a@);
    assert(b@.take(i as int) =~= b@);
    true
}

/// Whether `text` begins with `prefix`.
fn starts_with(text: &[u8], prefix: &[u8]) -> (r: bool)
    ensures
        r <==> has_prefix(text@, prefix@),
{
    prefix.len() <= text.len() && bytes_equal(slice_subrange(text, 0, prefix.len()), prefix)
}

/// The text in which an option gives its iteration count: what follows `-i`,
/// or what follows `--iterations` and one `=`, if there is one. `None` for a
/// token that is neither option.
pub open spec fn iteration_text(token: Seq<u8>) -> Option<Seq<u8>> {
    let short = "-i".spec_bytes();
    let long = "--iterations".spec_bytes();
    if has_prefix(token, short) {
        Some(token.subrange(short.len() as int, token.len() as int))
    } else if has_prefix(token, long) {
        let rest = token.subrange(long.len() as int, token.len() as int);
        if rest.len() > 0 && rest[0] == EQUALS {
            Some(rest.subrange(1, rest.len() as int))
        } else {
            Some(rest)
        }
    } else {
        None
    }
}

/// The iteration count that an option sets, or why the option is refused.
pub open spec fn iteration_option(token: Seq<u8>) -> Result<u64, ArgError> {
    match iteration_text(token) {
        None => Err(ArgError::UnknownOption),
        Some(text) => match integer_value(text) {
            None => Err(ArgError::InvalidNumber),
            Some(n) => if n <= 0 {
                Err(ArgError::NotPositive)
            } else {
                Ok(n as u64)
            },
        },
    }
}

/// Reads the iteration count from a token of the form `-i<N>`,
/// `--iterations<N>` or `--iterations=<N>`.
///
/// The count is a decimal integer in the range of `i32`, and positive. Any
/// other token is refused, each for its reason.
pub fn parse_arg(arg: &str) -> (r: Result<u64, ArgError>)
    ensures
        r == iteration_option(arg.spec_bytes()),
        r matches Ok(n) ==> 0 < n <= i32::MAX,
{
    let token = arg.as_bytes();
    let short = "-i".as_bytes();
    let long = "--iterations".as_bytes();
    let text = if starts_with(token, short) {
        slice_subrange(token, short.len(), token.len())
    } else if starts_with(token, long) {
        let rest = slice_subrange(token, long.len(), token.len());
        if rest.len() > 0 && rest[0] == EQUALS {
            slice_subrange(rest, 1, rest.len())
        } else {
            rest
        }
    } else {
        return Err(ArgError::UnknownOption);
    };
    match parse_integer(text) {
        None => Err(ArgError::InvalidNumber),
        Some(n) => if n <= 0 {
            Err(ArgError::NotPositive)
        } else {
            Ok(n as u64)
        },
    }
}

/// What one token of the command line asks for.
#[derive(Clone, Copy, Debug, PartialEq, Eq, Structural)]
pub enum Token {
    /// The token names a file.
    Path,
    /// Encode with zopfli.
    UseZopfli,
    /// Show the usage text.
    Help,
    /// Run zopfli with this iteration count.
    Iterations(u64),
    /// The token is refused.
    Invalid(ArgError),
}

/// What a token asks for.
pub open spec fn classify(token: Seq<u8>) -> Token {
    if token == "-z".spec_bytes() || token == "--zopfli".spec_bytes() {
        Token::UseZopfli
    } else if token == "-h".spec_bytes() || token == "--help".spec_bytes() {
        Token::Help
    } else if has_prefix(token, "-".spec_bytes()) {
        match iteration_option(token) {
            Ok(n) => Token::Iterations(n),
            Err(e) => Token::Invalid(e),
        }
    } else {
        Token::Path
    }
}

/// Computes [`classify`] for the bytes of `arg`.
pub fn classify_token(arg: &str) -> (t: Token)
    ensures
        t == classify(arg.spec_bytes()),
        t matches Token::Iterations(n) ==> n > 0,
{
    let token = arg.as_bytes();
    if bytes_equal(token, "-z".as_bytes()) || bytes_equal(token, "--zopfli".as_bytes()) {
        Token::UseZopfli
    } else if bytes_equal(token, "-h".as_bytes()) || bytes_equal(token, "--help".as_bytes()) {
        Token::Help
    } else if starts_with(token, "-".as_bytes()) {
        match parse_arg(arg) {
            Ok(n) => Token::Iterations(n),
            Err(e) => Token::Invalid(e),
        }
    } else {
        Token::Path
    }
}

/// A request to recompress files.
#[derive(Debug)]
pub struct Request {
    /// The files, in the order in which they were named.
    pub files: Vec<String>,
    /// The iteration count for zopfli, where one was given.
    pub iterations: Option<u64>,
    /// Whether to encode with zopfli.
    pub zopfli: bool,
}

/// A [`Request`] as a mathematical value.
pub ghost struct RequestView {
    pub files: Seq<Seq<char>>,
    pub iterations: Option<u64>,
    pub zopfli: bool,
}

impl View for Request {
    type V = RequestView;

    open spec fn view(&self) -> RequestView {
        RequestView {
            files: self.files.deep_view(),
            iterations: self.iterations,
            zopfli: self.zopfli,
        }
    }
}

/// What a command line asks for.
#[derive(Debug)]
pub enum Invocation {
    /// Show the usage text and do nothing else.
    Help,
    /// Recompress files.
    Run(Request),
}

/// An [`Invocation`] as a mathematical value.
pub ghost enum InvocationView {
    Help,
    Run(RequestView),
}

impl View for Invocation {
    type V = InvocationView;

    open spec fn view(&self) -> InvocationView {
        match *self {
            Invocation::Help => InvocationView::Help,
            Invocation::Run(request) => InvocationView::Run(request@),
        }
    }
}

/// The request before any token is read.
pub open spec fn no_request() -> RequestView {
    RequestView { files: Seq::empty(), iterations: None, zopfli: false }
}

/// The request after one more token, which asks for `kind`.
pub open spec fn request_with(before: RequestView, token: Seq<char>, kind: Token) -> RequestView {
    match kind {
        Token::Path => RequestView { files: before.files.push(token), ..before },
        Token::UseZopfli => RequestView { zopfli: true, ..before },
        Token::Iterations(n) => RequestView { iterations: Some(n), ..before },
        _ => before,
    }
}

/// What the token with the text `token` asks for: [`classify`] of its bytes
/// in UTF-8.
pub open spec fn token_kind(token: Seq<char>) -> Token {
    classify(vstd::utf8::encode_utf8(token))
}

/// The state of reading once the tokens `args[1]` to `args[upto - 1]` are
/// read (`args[0]` names the program): help or an error where one of them
/// asked for help or was refused, the first such token deciding; else the
/// request so far.
pub open spec fn scan(args: Seq<Seq<char>>, upto: int) -> Result<InvocationView, ArgError>
    decreases upto,
{
    if upto <= 1 {
        Ok(InvocationView::Run(no_request()))
    } else {
        match scan(args, upto - 1) {
            Ok(InvocationView::Run(before)) => {
                let token = args[upto - 1];
                match token_kind(token) {
                    Token::Help => Ok(InvocationView::Help),
                    Token::Invalid(e) => Err(e),
                    kind => Ok(InvocationView::Run(request_with(before, token, kind))),
                }
            },
            halted => halted,
        }
    }
}

/// What a command line asks for: what [`scan`] gives for all of it, but that
/// a request without files is refused.
pub open spec fn interpret(args: Seq<Seq<char>>) -> Result<InvocationView, ArgError> {
    match scan(args, args.len() as int) {
        Ok(InvocationView::Run(request)) => if request.files.len() == 0 {
            Err(ArgError::NoFiles)
        } else {
            Ok(InvocationView::Run(request))
        },
        halted => halted,
    }
}

/// Once the reading has ended, further tokens change nothing.
pub proof fn lemma_scan_halts(args: Seq<Seq<char>>, at: int, upto: int)
    requires
        at <= upto,
        !(scan(args, at) matches Ok(InvocationView::Run(_))),
    ensures
        scan(args, upto) == scan(args, at),
    decreases upto - at,
{
    if at < upto {
        lemma_scan_halts(args, at, upto - 1);
    }
}

/// Interprets a command line, `args[0]` being the program's name.
///
/// The result is [`interpret`] of the arguments: help, where help was asked
/// for before any bad option; the error of the first bad option, where one
/// stands before any request for help; else the files in their order, the
/// last iteration count given and whether zopfli was asked for, or
/// `NoFiles` where no file was named. An iteration count in a request is
/// positive.
pub fn parse_args(args: &Vec<String>) -> (r: Result<Invocation, ArgError>)
    ensures
        match r {
            Ok(invocation) => interpret(args.deep_view()) == Ok::<InvocationView, ArgError>(
                invocation@,
            ),
            Err(e) => interpret(args.deep_view()) == Err::<InvocationView, ArgError>(e),
        },
        r matches Ok(Invocation::Run(request)) ==> request.files.len() > 0 && (
        request.iterations matches Some(n) ==> n > 0),
{
    let ghost tokens = args.deep_view();
    let mut files: Vec<String> = Vec::new();
    let mut iterations: Option<u64> = None;
    let mut zopfli = false;
    let mut index: usize = 1;
    assert(files.deep_view() =~= Seq::<Seq<char>>::empty());
    while index < args.len()
        invariant
            1 <= index,
            index <= args.len() || (args.len() == 0 && index == 1),
            tokens == args.deep_view(),
            scan(tokens, index as int) == Ok::<InvocationView, ArgError>(
                InvocationView::Run(
                    RequestView { files: files.deep_view(), iterations, zopfli },
                ),
            ),
            iterations matches Some(n) ==> n > 0,
        decreases args.len() - index,
    {
        let arg = &args[index];
        let ghost before = RequestView { files: files.deep_view(), iterations, zopfli };
        assert(tokens[index as int] == arg@);
        match classify_token(arg.as_str()) {
            Token::Path => {
                files.push(arg.clone());
                assert(files.deep_view() =~= before.files.push(arg@));
            },
            Token::UseZopfli => {
                zopfli = true;
            },
            Token::Iterations(n) => {
                iterations = Some(n);
            },
            Token::Help => {
                proof {
                    lemma_scan_halts(tokens, index + 1, tokens.len() as int);
                }
                return Ok(Invocation::Help);
            },
            Token::Invalid(e) => {
                proof {
                    lemma_scan_halts(tokens, index + 1, tokens.len() as int);
                }
                return Err(e);
            },
        }
        index += 1;
    }
    assert(scan(tokens, tokens.len() as int) == scan(tokens, index as int)) by {
        assert(tokens.len() == args.len());
        if args.len() == 0 {
            assert(scan(tokens, 0) == scan(tokens, 1));
        }
    }
    if files.len() == 0 {
        Err(ArgError::NoFiles)
    } else {
        Ok(Invocation::Run(Request { files, iterations, zopfli }))
    }
}

/// The status with which the program ends: 0 for a command line that was
/// accepted, whatever becomes of the files, and 1 for one that was refused.
pub fn exit_code(parsed: &Result<Invocation, ArgError>) -> (code: i32)
    ensures
        code == (if parsed is Ok {
            0i32
        } else {
            1i32
        }),
{
    match parsed {
        Ok(_) => 0,
        Err(_) => 1,
    }
}

/// While no token asks for help, the reading does not end in help.
proof fn lemma_scan_without_help(args: Seq<Seq<char>>, upto: int)
    requires
        forall|j: int| 1 <= j < upto ==> !(#[trigger] token_kind(args[j]) is Help),
    ensures
        scan(args, upto) != Ok::<InvocationView, ArgError>(InvocationView::Help),
    decreases upto,
{
    if upto > 1 {
        lemma_scan_without_help(args, upto - 1);
    }
}

/// While no token names a file, the request holds no file.
proof fn lemma_scan_without_files(args: Seq<Seq<char>>, upto: int)
    requires
        forall|j: int| 1 <= j < upto ==> !(#[trigger] token_kind(args[j]) is Path),
    ensures
        scan(args, upto) matches Ok(InvocationView::Run(request)) ==> request.files.len() == 0,
    decreases upto,
{
    if upto > 1 {
        lemma_scan_without_files(args, upto - 1);
    }
}

/// A bad option, wherever it stands, keeps every file from being touched:
/// the command line gives no request. Unless help was asked for before it,
/// the command line is refused.
pub proof fn lemma_bad_option_runs_nothing(args: Seq<Seq<char>>, at: int)
    requires
        1 <= at < args.len(),
        token_kind(args[at]) is Invalid,
    ensures
        !(interpret(args) matches Ok(InvocationView::Run(_))),
        (forall|j: int| 1 <= j < at ==> !(#[trigger] token_kind(args[j]) is Help))
            ==> interpret(args) is Err,
{
    lemma_scan_halts(args, at + 1, args.len() as int);
    if forall|j: int| 1 <= j < at ==> !(#[trigger] token_kind(args[j]) is Help) {
        lemma_scan_without_help(args, at);
    }
}

/// A command line that names no file gives no request. Unless it asks for
/// help, it is refused.
pub proof fn lemma_no_file_runs_nothing(args: Seq<Seq<char>>)
    requires
        forall|j: int| 1 <= j < args.len() ==> !(#[trigger] token_kind(args[j]) is Path),
    ensures
        !(interpret(args) matches Ok(InvocationView::Run(_))),
        (forall|j: int| 1 <= j < args.len() ==> !(#[trigger] token_kind(args[j]) is Help))
            ==> interpret(args) is Err,
{
    lemma_scan_without_files(args, args.len() as int);
    if forall|j: int| 1 <= j < args.len() ==> !(#[trigger] token_kind(args[j]) is Help) {
        lemma_scan_without_help(args, args.len() as int);
    }
}

/// The tokens of a command line that name files, in their order.
pub open spec fn named_files(args: Seq<Seq<char>>) -> Seq<Seq<char>> {
    if args.len() == 0 {
        Seq::empty()
    } else {
        args.subrange(1, args.len() as int).filter(|token: Seq<char>| token_kind(token) is Path)
    }
}

/// As long as the reading goes on, the request holds the files named so
/// far, and asks for zopfli where a token so far did.
proof fn lemma_scan_collects(args: Seq<Seq<char>>, upto: int)
    requires
        1 <= upto <= args.len(),
    ensures
        scan(args, upto) matches Ok(InvocationView::Run(request)) ==> {
            &&& request.files == args.subrange(1, upto).filter(
                |token: Seq<char>| token_kind(token) is Path,
            )
            &&& request.zopfli <==> exists|j: int|
                1 <= j < upto && #[trigger] token_kind(args[j]) is UseZopfli
        },
    decreases upto,
{
    reveal(Seq::filter);
    if upto > 1 {
        lemma_scan_collects(args, upto - 1);
        assert(args.subrange(1, upto).drop_last() =~= args.subrange(1, upto - 1));
        assert(args.subrange(1, upto).last() == args[upto - 1]);
    }
}

/// A request holds every token that names a file, in the order of the
/// command line, and nothing else; and it asks for zopfli just where some
/// token does.
pub proof fn lemma_request_names_the_files(args: Seq<Seq<char>>)
    ensures
        interpret(args) matches Ok(InvocationView::Run(request)) ==> {
            &&& request.files == named_files(args)
            &&& request.zopfli <==> exists|j: int|
                1 <= j < args.len() && #[trigger] token_kind(args[j]) is UseZopfli
        },
{
    if args.len() > 0 {
        lemma_scan_collects(args, args.len() as int);
    }
}

} // verus!
