//! What is asked of cloudflared, and what is read from its replies.
use crate::error::{Error, ErrorView};
use crate::text::{
    chars_of, contains, contains_chars, first_of, fresh, is_space, join_spaced, last_word,
    last_word_bounds, lemma_first_of, lemma_first_of_at, lemma_tail_word, lines, occurs_at, put_text, spaced, tail_word, trim, trimmed, trimmed_end,
    without_return,
};
use vstd::prelude::*;

verus! {

/// A tunnel as cloudflared lists it.
#[derive(Debug)]
pub struct CloudflaredTunnel {
    pub id: String,
    pub name: String,
    pub created_at: String,
    /// The number of connections that are open.
    pub connections: usize,
}

/// The texts of a [`CloudflaredTunnel`].
pub struct CloudflaredTunnelView {
    pub id: Seq<char>,
    pub name: Seq<char>,
    pub created_at: Seq<char>,
    pub connections: nat,
}

impl View for CloudflaredTunnel {
    type V = CloudflaredTunnelView;

    open spec fn view(&self) -> CloudflaredTunnelView {
        CloudflaredTunnelView {
            id: self.id@,
            name: self.name@,
            created_at: self.created_at@,
            connections: self.connections as nat,
        }
    }
}

impl DeepView for CloudflaredTunnel {
    type V = CloudflaredTunnelView;

    open spec fn deep_view(&self) -> CloudflaredTunnelView {
        self@
    }
}

/// How a run of cloudflared ended.
#[derive(Debug)]
pub struct CommandOutput {
    pub success: bool,
    /// The exit status, in words.
    pub status: String,
    pub stdout: Vec<u8>,
    pub stderr: Vec<u8>,
}

/// The contents of a [`CommandOutput`].
pub struct CommandOutputView {
    pub success: bool,
    pub status: Seq<char>,
    pub stdout: Seq<u8>,
    pub stderr: Seq<u8>,
}

impl View for CommandOutput {
    type V = CommandOutputView;

    open spec fn view(&self) -> CommandOutputView {
        CommandOutputView {
            success: self.success,
            status: self.status@,
            stdout: self.stdout@,
            stderr: self.stderr@,
        }
    }
}

/// What `String::from_utf8_lossy` makes of `bytes`.
pub uninterp spec fn lossy_text(bytes: Seq<u8>) -> Seq<char>;

/// Calls `String::from_utf8_lossy`. Trusted: the text depends on the bytes alone,
/// and bytes that are UTF-8 are decoded. Which replacement characters stand for
/// bytes that are not is left unsaid.
#[verifier::external_body]
fn from_utf8_lossy(bytes: &Vec<u8>) -> (r: String)
    ensures
        r@ == lossy_text(bytes@),
        vstd::utf8::valid_utf8(bytes@) ==> r@ == vstd::utf8::decode_utf8(bytes@),
{
    String::from_utf8_lossy(bytes).into_owned()
}

/// Whether `bytes` that are UTF-8 stand for the text that they encode.
pub open spec fn is_decoded(bytes: Seq<u8>) -> bool {
    vstd::utf8::valid_utf8(bytes) ==> lossy_text(bytes) == vstd::utf8::decode_utf8(bytes)
}

/// What becomes of a run of cloudflared that printed `stdout` and `stderr`: what
/// it printed, or an error that quotes it.
pub open spec fn outcome_of(
    args: Seq<Seq<char>>,
    success: bool,
    status: Seq<char>,
    stdout: Seq<char>,
    stderr: Seq<char>,
) -> Result<Seq<char>, ErrorView> {
    if success {
        Ok(stdout)
    } else {
        Err(
            ErrorView::CommandFailed {
                command: spaced(args),
                status,
                stdout: trimmed(stdout),
                stderr: trimmed(stderr),
            },
        )
    }
}

/// What becomes of a run of cloudflared with the arguments `args`.
pub open spec fn checked(args: Seq<Seq<char>>, output: CommandOutputView) -> Result<
    Seq<char>,
    ErrorView,
> {
    outcome_of(
        args,
        output.success,
        output.status,
        lossy_text(output.stdout),
        lossy_text(output.stderr),
    )
}

/// The texts of a result.
pub open spec fn result_view(r: Result<String, Error>) -> Result<Seq<char>, ErrorView> {
    match r {
        Ok(s) => Ok(s@),
        Err(e) => Err(e@),
    }
}

/// What a run printed, if it ended well, and otherwise an error that quotes it.
pub fn check_output(
    args: &Vec<String>,
    success: bool,
    status: &str,
    stdout: String,
    stderr: &str,
) -> (r: Result<String, Error>)
    ensures
        result_view(r) == outcome_of(args.deep_view(), success, status@, stdout@, stderr@),
{
    if success {
        Ok(stdout)
    } else {
        Err(
            Error::CommandFailed {
                command: join_spaced(args),
                status: status.to_string(),
                stdout: trim(stdout.as_str()),
                stderr: trim(stderr),
            },
        )
    }
}

/// What cloudflared printed when it was run with `args`, if it ended well.
pub fn cloudflared_ok(args: &Vec<String>, output: &CommandOutput) -> (r: Result<String, Error>)
    ensures
        result_view(r) == checked(args.deep_view(), output@),
        is_decoded(output@.stdout),
        is_decoded(output@.stderr),
{
    let stdout = from_utf8_lossy(&output.stdout);
    let stderr = from_utf8_lossy(&output.stderr);
    check_output(args, output.success, output.status.as_str(), stdout, stderr.as_str())
}

/// The first of `lines` in which `pattern` stands.
pub open spec fn first_with(lines: Seq<Seq<char>>, pattern: Seq<char>) -> Option<Seq<char>>
    decreases lines.len(),
{
    if lines.len() == 0 {
        None
    } else if contains(lines[0], pattern) {
        Some(lines[0])
    } else {
        first_with(lines.drop_first(), pattern)
    }
}

/// The id in what cloudflared prints for a new tunnel: the last word of the
/// first line that says `with id`.
pub open spec fn uuid_of(output: Seq<char>) -> Option<Seq<char>> {
    match first_with(lines(output), "with id"@) {
        Some(line) => last_word(line),
        None => None,
    }
}

/// The id in what cloudflared prints for a new tunnel, such as
/// `Created tunnel my-tunnel with id aaafc451-1eea-47a4-81e2-3c02b3907c37`.
pub fn parse_uuid(output: &str) -> (r: Option<String>)
    ensures
        r.deep_view() == uuid_of(output@),
{
    let v = chars_of(output);
    let pattern = chars_of("with id");
    let ghost all = output@;
    let mut start: usize = 0;
    assert(all.skip(0) =~= all);
    while start < v.len()
        invariant
            v@ == all,
            all == output@,
            pattern@ == "with id"@,
            start <= v.len(),
            first_with(lines(all), "with id"@) == first_with(
                lines(all.skip(start as int)),
                "with id"@,
            ),
        decreases v.len() - start,
    {
        let ghost rest = all.skip(start as int);
        let mut end: usize = start;
        while end < v.len() && v[end] != '\n'
            invariant
                v@ == all,
                start <= end <= v.len(),
                forall|j: int| start <= j < end ==> all[j] != '\n',
            decreases v.len() - end,
        {
            end += 1;
        }
        proof {
            lemma_first_of_at(rest, '\n', end - start);
        }
        let last = end == v.len();
        let mut stop: usize = end;
        if !last && start < end && v[end - 1] == '\r' {
            stop = end - 1;
        }
        let ghost line = all.subrange(start as int, stop as int);
        let mut chars: Vec<char> = Vec::new();
        let mut i: usize = start;
        while i < stop
            invariant
                v@ == all,
                start <= i <= stop <= v.len(),
                chars@ == all.subrange(start as int, i as int),
            decreases stop - i,
        {
            chars.push(v[i]);
            i += 1;
        }
        proof {
            let ls = lines(rest);
            assert(rest.take(end - start) =~= all.subrange(start as int, end as int));
            if last {
                assert(rest =~= line);
                assert(ls =~= seq![line]);
            } else {
                if stop < end {
                    assert(all.subrange(start as int, end as int).drop_last() =~= line);
                } else if start < end {
                    assert(all.subrange(start as int, end as int).last() == all[end - 1]);
                }
                assert(rest.skip(end - start + 1) =~= all.skip(end + 1));
                assert(ls =~= seq![line] + lines(all.skip(end + 1)));
            }
            assert(ls[0] == line);
            assert(ls.drop_first() =~= if last {
                seq![]
            } else {
                lines(all.skip(end + 1))
            });
        }
        if contains_chars(&chars, &pattern) {
            return match last_word_bounds(&v, start, stop) {
                Some((from, to)) => Some(output.substring_char(from, to).to_string()),
                None => None,
            };
        }
        if last {
            assert(first_with(seq![], "with id"@) is None);
            return None;
        }
        start = end + 1;
    }
    None
}

/// What is said of a run of cloudflared that should list the tunnels.
pub open spec fn list_outcome_of(success: bool, stdout: Seq<char>, stderr: Seq<char>) -> Result<
    Seq<char>,
    ErrorView,
> {
    if success {
        Ok(stdout)
    } else {
        Err(ErrorView::ListFailed { stderr: trimmed(stderr) })
    }
}

/// What becomes of a run that should list the tunnels, which printed `stdout`
/// and `stderr`.
pub fn check_list(success: bool, stdout: String, stderr: &str) -> (r: Result<String, Error>)
    ensures
        result_view(r) == list_outcome_of(success, stdout@, stderr@),
{
    if success {
        Ok(stdout)
    } else {
        Err(Error::ListFailed { stderr: trim(stderr) })
    }
}

/// What cloudflared printed when it was asked for the tunnels, if it ended well.
pub fn list_output(output: &CommandOutput) -> (r: Result<String, Error>)
    ensures
        result_view(r) == list_outcome_of(
            output@.success,
            lossy_text(output@.stdout),
            lossy_text(output@.stderr),
        ),
        is_decoded(output@.stdout),
        is_decoded(output@.stderr),
{
    let stdout = from_utf8_lossy(&output.stdout);
    let stderr = from_utf8_lossy(&output.stderr);
    check_list(output.success, stdout, stderr.as_str())
}

/// Where the array begins in what cloudflared printed: at the first `[`, or at
/// the start where there is none.
pub open spec fn array_start(stdout: Seq<char>) -> int {
    if stdout.contains('[') {
        first_of(stdout, '[')
    } else {
        0
    }
}

/// How far a reader of JSON has come: the brackets that are open, and whether it
/// stands in a string, behind a backslash there or not.
pub struct Reading {
    pub depth: int,
    pub quoted: bool,
    pub escaped: bool,
}

impl Reading {
    /// The reader once it has read `c`. Brackets count outside strings only.
    pub open spec fn next(self, c: char) -> Reading {
        if self.escaped {
            Reading { escaped: false, ..self }
        } else if self.quoted {
            Reading { quoted: c != '"', escaped: c == '\\', ..self }
        } else if c == '"' {
            Reading { quoted: true, ..self }
        } else if c == '[' {
            Reading { depth: self.depth + 1, ..self }
        } else if c == ']' {
            Reading { depth: self.depth - 1, ..self }
        } else {
            self
        }
    }
}

/// A reader who has read nothing.
pub open spec fn unread() -> Reading {
    Reading { depth: 0, quoted: false, escaped: false }
}

/// How much of `s` the reader reads until no bracket is open any more, if that
/// comes.
pub open spec fn closing(s: Seq<char>, reading: Reading) -> Option<int>
    decreases s.len(),
{
    if s.len() == 0 {
        None
    } else {
        let next = reading.next(s[0]);
        if next.depth == 0 {
            Some(1)
        } else {
            match closing(s.drop_first(), next) {
                Some(n) => Some(n + 1),
                None => None,
            }
        }
    }
}

/// Whether `s` is one array, as far as its brackets tell: it begins with a `[`,
/// and its last character is the `]` that closes it.
pub open spec fn is_array(s: Seq<char>) -> bool {
    s.len() > 0 && s[0] == '[' && closing(s, unread()) == Some(s.len() as int)
}

/// Where the first array ends in what cloudflared printed: behind the `]` that
/// closes the first `[`, or at the end where there is none.
pub open spec fn array_end(stdout: Seq<char>) -> int {
    let start = array_start(stdout);
    if !stdout.contains('[') {
        stdout.len() as int
    } else {
        match closing(stdout.skip(start), unread()) {
            Some(n) => start + n,
            None => stdout.len() as int,
        }
    }
}

/// The place of the first `[` in `v`, or 0.
fn find_start(v: &Vec<char>) -> (r: usize)
    ensures
        r == array_start(v@),
        r <= v.len(),
{
    let mut i: usize = 0;
    while i < v.len()
        invariant
            i <= v.len(),
            forall|j: int| 0 <= j < i ==> v@[j] != '[',
        decreases v.len() - i,
    {
        if v[i] == '[' {
            proof {
                lemma_first_of_at(v@, '[', i as int);
                assert(v@.contains('[')) by {
                    assert(v@[i as int] == '[');
                }
            }
            return i;
        }
        i += 1;
    }
    0
}

/// What the reader reads is part of the text.
proof fn lemma_closing_bound(s: Seq<char>, reading: Reading)
    ensures
        closing(s, reading) matches Some(n) ==> 0 < n <= s.len(),
    decreases s.len(),
{
    if s.len() > 0 {
        lemma_closing_bound(s.drop_first(), reading.next(s[0]));
    }
}

/// The place behind the `]` that closes the `[` at `start` in `v`, or the end.
fn find_end(v: &Vec<char>, start: usize) -> (r: usize)
    requires
        start < v.len(),
        v@[start as int] == '[',
    ensures
        start < r <= v.len(),
        match closing(v@.skip(start as int), unread()) {
            Some(n) => r == start + n,
            None => r == v.len(),
        },
{
    let ghost whole = closing(v@.skip(start as int), unread());
    let mut depth: usize = 0;
    let mut quoted = false;
    let mut escaped = false;
    let mut i: usize = start;
    while i < v.len()
        invariant
            start <= i <= v.len(),
            start < v.len(),
            v@[start as int] == '[',
            depth <= i - start,
            i > start ==> depth > 0,
            i == start ==> depth == 0 && !quoted && !escaped,
            whole == closing(v@.skip(start as int), unread()),
            ({
                let reading = Reading { depth: depth as int, quoted, escaped };
                match closing(v@.skip(i as int), reading) {
                    Some(n) => whole == Some(n + (i - start)),
                    None => whole is None,
                }
            }),
        decreases v.len() - i,
    {
        let c = v[i];
        let ghost rest = v@.skip(i as int);
        assert(rest[0] == c);
        assert(rest.drop_first() =~= v@.skip(i + 1));
        if escaped {
            escaped = false;
        } else if quoted {
            if c == '"' {
                quoted = false;
            } else if c == '\\' {
                escaped = true;
            }
        } else if c == '"' {
            quoted = true;
        } else if c == '[' {
            depth += 1;
        } else if c == ']' {
            depth -= 1;
        }
        i += 1;
        if depth == 0 {
            return i;
        }
    }
    i
}

/// The first array in what cloudflared printed. Log lines may follow it.
pub fn json_array(stdout: &str) -> (r: String)
    ensures
        0 <= array_start(stdout@) <= array_end(stdout@) <= stdout@.len(),
        r@ == stdout@.subrange(array_start(stdout@), array_end(stdout@)),
{
    let v = chars_of(stdout);
    let start = find_start(&v);
    if start < v.len() && v[start] == '[' {
        let end = find_end(&v, start);
        proof {
            assert(v@.contains('[')) by {
                assert(v@[start as int] == '[');
            }
            lemma_closing_bound(v@.skip(start as int), unread());
        }
        stdout.substring_char(start, end).to_string()
    } else {
        proof {
            lemma_first_of(v@, '[');
            assert(stdout@.subrange(0, stdout@.len() as int) =~= stdout@);
        }
        stdout.to_string()
    }
}

/// What becomes of a run that should list the tunnels: the text of the first array
/// that it printed, or an error.
pub open spec fn listed_of(output: CommandOutputView) -> Result<Seq<char>, ErrorView> {
    match list_outcome_of(
        output.success,
        lossy_text(output.stdout),
        lossy_text(output.stderr),
    ) {
        Ok(text) => Ok(text.subrange(array_start(text), array_end(text))),
        Err(e) => Err(e),
    }
}

/// The first array that cloudflared printed when it was asked for the tunnels, if it
/// ended well.
pub fn listed_array(output: &CommandOutput) -> (r: Result<String, Error>)
    ensures
        result_view(r) == listed_of(output@),
        is_decoded(output@.stdout),
        is_decoded(output@.stderr),
{
    match list_output(output) {
        Ok(text) => Ok(json_array(text.as_str())),
        Err(e) => Err(e),
    }
}

/// The arguments that list the tunnels.
pub open spec fn list_args_of() -> Seq<Seq<char>> {
    seq!["tunnel"@, "list"@, "-o"@, "json"@]
}

/// The arguments that create the tunnel `name`.
pub open spec fn create_args_of(name: Seq<char>) -> Seq<Seq<char>> {
    seq!["tunnel"@, "create"@, name]
}

/// The arguments that delete the tunnel `uuid`.
pub open spec fn delete_args_of(uuid: Seq<char>) -> Seq<Seq<char>> {
    seq!["tunnel"@, "delete"@, uuid]
}

/// The arguments that route `hostname` to the tunnel `name`.
pub open spec fn route_args_of(name: Seq<char>, hostname: Seq<char>) -> Seq<Seq<char>> {
    seq!["tunnel"@, "route"@, "dns"@, name, hostname]
}

/// The arguments that remove the route of `hostname`.
pub open spec fn unroute_args_of(hostname: Seq<char>) -> Seq<Seq<char>> {
    seq!["tunnel"@, "route"@, "dns"@, "delete"@, hostname]
}

/// The arguments that run the tunnel that `config_path` configures.
pub open spec fn run_args_of(config_path: Seq<char>) -> Seq<Seq<char>> {
    seq!["tunnel"@, "--config"@, config_path, "run"@]
}

/// The arguments that list the tunnels.
pub fn list_args() -> (r: Vec<String>)
    ensures
        r.deep_view() == list_args_of(),
{
    let mut v = fresh();
    put_text(&mut v, "tunnel");
    put_text(&mut v, "list");
    put_text(&mut v, "-o");
    put_text(&mut v, "json");
    v
}

/// The arguments that create the tunnel `name`.
pub fn create_args(name: &str) -> (r: Vec<String>)
    ensures
        r.deep_view() == create_args_of(name@),
{
    let mut v = fresh();
    put_text(&mut v, "tunnel");
    put_text(&mut v, "create");
    put_text(&mut v, name);
    v
}

/// The arguments that delete the tunnel `uuid`.
pub fn delete_args(uuid: &str) -> (r: Vec<String>)
    ensures
        r.deep_view() == delete_args_of(uuid@),
{
    let mut v = fresh();
    put_text(&mut v, "tunnel");
    put_text(&mut v, "delete");
    put_text(&mut v, uuid);
    v
}

/// The arguments that route `hostname` to the tunnel `name`.
pub fn route_args(name: &str, hostname: &str) -> (r: Vec<String>)
    ensures
        r.deep_view() == route_args_of(name@, hostname@),
{
    let mut v = fresh();
    put_text(&mut v, "tunnel");
    put_text(&mut v, "route");
    put_text(&mut v, "dns");
    put_text(&mut v, name);
    put_text(&mut v, hostname);
    v
}

/// The arguments that remove the route of `hostname`.
pub fn unroute_args(hostname: &str) -> (r: Vec<String>)
    ensures
        r.deep_view() == unroute_args_of(hostname@),
{
    let mut v = fresh();
    put_text(&mut v, "tunnel");
    put_text(&mut v, "route");
    put_text(&mut v, "dns");
    put_text(&mut v, "delete");
    put_text(&mut v, hostname);
    v
}

/// The arguments that run the tunnel that `config_path` configures.
pub fn run_args(config_path: &str) -> (r: Vec<String>)
    ensures
        r.deep_view() == run_args_of(config_path@),
{
    let mut v = fresh();
    put_text(&mut v, "tunnel");
    put_text(&mut v, "--config");
    put_text(&mut v, config_path);
    put_text(&mut v, "run");
    v
}

/// The words `with id` stand in `s` where they stand in its first line or in
/// what follows that line.
proof fn lemma_contains_by_lines(s: Seq<char>)
    requires
        first_of(s, '\n') < s.len(),
    ensures
        contains(s, "with id"@) <==> (contains(
            without_return(s.take(first_of(s, '\n'))),
            "with id"@,
        ) || contains(s.skip(first_of(s, '\n') + 1), "with id"@)),
{
    reveal_strlit("with id");
    lemma_first_of(s, '\n');
    let e = first_of(s, '\n');
    let p = "with id"@;
    let line = without_return(s.take(e));
    let rest = s.skip(e + 1);
    if contains(s, p) {
        let at = choose|at: int| occurs_at(s, p, at);
        assert forall|j: int| 0 <= j < p.len() implies s[at + j] == #[trigger] p[j] by {
            assert(s.subrange(at, at + p.len())[j] == p[j]);
        }
        if at <= e < at + p.len() {
            assert(s[at + (e - at)] == p[e - at]);
        }
        if at + p.len() <= e {
            assert(s[at + 6] == p[6]);
            assert(at + p.len() <= line.len());
            assert(line.subrange(at, at + p.len()) =~= p);
            assert(occurs_at(line, p, at));
        } else {
            assert(at > e);
            assert(rest.subrange(at - e - 1, at - e - 1 + p.len()) =~= p);
            assert(occurs_at(rest, p, at - e - 1));
        }
    }
    if contains(line, p) {
        let at = choose|at: int| occurs_at(line, p, at);
        assert(s.subrange(at, at + p.len()) =~= line.subrange(at, at + p.len()));
        assert(occurs_at(s, p, at));
    }
    if contains(rest, p) {
        let at = choose|at: int| occurs_at(rest, p, at);
        assert(s.subrange(at + e + 1, at + e + 1 + p.len()) =~= rest.subrange(at, at + p.len()));
        assert(occurs_at(s, p, at + e + 1));
    }
}

/// A line with `with id` is found where the words stand in the text, and holds
/// them.
proof fn lemma_first_with_lines(s: Seq<char>)
    ensures
        match first_with(lines(s), "with id"@) {
            Some(line) => contains(s, "with id"@) && contains(
                line,
                "with id"@,
            ),
            None => !contains(s, "with id"@),
        },
    decreases s.len(),
{
    lemma_first_of(s, '\n');
    let ls = lines(s);
    if s.len() == 0 {
        reveal_strlit("with id");
    } else if first_of(s, '\n') >= s.len() {
        assert(ls.drop_first() =~= seq![]);
        assert(first_with(seq![], "with id"@) is None);
    } else {
        let rest = s.skip(first_of(s, '\n') + 1);
        lemma_first_with_lines(rest);
        lemma_contains_by_lines(s);
        assert(ls.drop_first() =~= lines(rest));
    }
}

/// What stands before the white space at the end of `s` reaches as far as any
/// character that is not white space.
proof fn lemma_trimmed_end(s: Seq<char>, at: int)
    requires
        0 <= at < s.len(),
        !is_space(s[at]),
    ensures
        trimmed_end(s).len() > at,
        !is_space(trimmed_end(s).last()),
    decreases s.len(),
{
    if is_space(s.last()) {
        lemma_trimmed_end(s.drop_last(), at);
    }
}

/// A tail word is free of white space, and is something where the text does not
/// end in white space.
proof fn lemma_tail_word_is_word(s: Seq<char>)
    ensures
        forall|i: int|
            0 <= i < tail_word(s).len() ==> !is_space(
                #[trigger] tail_word(s)[i],
            ),
        s.len() > 0 && !is_space(s.last()) ==> tail_word(s).len() > 0,
    decreases s.len(),
{
    if s.len() > 0 && !is_space(s.last()) {
        let front = tail_word(s.drop_last());
        let word = tail_word(s);
        lemma_tail_word_is_word(s.drop_last());
        assert forall|i: int| 0 <= i < word.len() implies !is_space(
            #[trigger] word[i],
        ) by {
            if i < front.len() {
                assert(word[i] == front[i]);
            }
        }
    }
}

/// An id is found exactly where the output says `with id`, and what is found is
/// a word.
pub proof fn law_uuid_found(output: Seq<char>)
    ensures
        uuid_of(output) is Some <==> contains(output, "with id"@),
        uuid_of(output) matches Some(uuid) ==> uuid.len() > 0 && forall|i: int|
            0 <= i < uuid.len() ==> !is_space(#[trigger] uuid[i]),
{
    reveal_strlit("with id");
    lemma_first_with_lines(output);
    if let Some(line) = first_with(lines(output), "with id"@) {
        let at = choose|at: int| occurs_at(line, "with id"@, at);
        assert(line.subrange(at, at + 7)[0] == 'w');
        lemma_trimmed_end(line, at);
        lemma_tail_word_is_word(trimmed_end(line));
    }
}

/// Whole lines without `with id` do not matter to what is found after them.
proof fn lemma_first_with_after(before: Seq<char>, rest: Seq<char>)
    requires
        before.len() == 0 || before.last() == '\n',
        !contains(before, "with id"@),
    ensures
        first_with(lines(before + rest), "with id"@) == first_with(
            lines(rest),
            "with id"@,
        ),
    decreases before.len(),
{
    if before.len() == 0 {
        assert(before + rest =~= rest);
    } else {
        let s = before + rest;
        lemma_first_of(before, '\n');
        let e = first_of(before, '\n');
        assert(before[before.len() - 1] == '\n');
        assert(before.contains('\n'));
        assert forall|j: int| 0 <= j < e implies s[j] != '\n' by {
            assert(s[j] == before[j]);
        }
        lemma_first_of_at(s, '\n', e);
        lemma_contains_by_lines(before);
        let after = before.skip(e + 1);
        assert(s.take(e) =~= before.take(e));
        assert(s.skip(e + 1) =~= after + rest);
        if after.len() > 0 {
            assert(after.last() == before.last());
        }
        lemma_first_with_after(after, rest);
        assert(lines(s).drop_first() =~= lines(after + rest));
    }
}

/// When cloudflared ends a line with `with id <uuid>`, as in `Created tunnel
/// <name> with id <uuid>`, and says `with id` on no line before, that id is found,
/// whatever follows.
pub proof fn law_uuid_announced(
    before: Seq<char>,
    start: Seq<char>,
    uuid: Seq<char>,
    after: Seq<char>,
)
    requires
        before.len() == 0 || before.last() == '\n',
        !contains(before, "with id"@),
        !start.contains('\n'),
        uuid.len() > 0,
        forall|i: int| 0 <= i < uuid.len() ==> !is_space(#[trigger] uuid[i]),
        after.len() == 0 || after[0] == '\n' || (after.len() > 1 && after[0] == '\r' && after[1]
            == '\n'),
    ensures
        uuid_of(before + (start + " with id "@ + uuid) + after) == Some(uuid),
{
    reveal_strlit(" with id ");
    reveal_strlit("with id");
    let line = start + " with id "@ + uuid;
    let rest = line + after;
    let n = start.len() as int;
    assert(before + line + after =~= before + rest);
    lemma_first_with_after(before, rest);
    assert forall|j: int| 0 <= j < line.len() implies rest[j] != '\n' by {
        if j < n {
            assert(line[j] == start[j]);
            assert(start.contains(start[j]));
        } else if j < n + 9 {
            assert(line[j] == " with id "@[j - n]);
        } else {
            assert(line[j] == uuid[j - n - 9]);
            assert(!is_space(uuid[j - n - 9]));
        }
    }
    assert(line.last() == uuid[uuid.len() - 1]);
    assert(!is_space(line.last()));
    assert(contains(line, "with id"@)) by {
        assert(line.subrange(n + 1, n + 8) =~= "with id"@);
        assert(occurs_at(line, "with id"@, n + 1));
    }
    let end: int = if after.len() == 0 || after[0] == '\n' {
        line.len() as int
    } else {
        line.len() as int + 1
    };
    lemma_first_of_at(rest, '\n', end);
    if after.len() == 0 {
        assert(rest =~= line);
    } else if after[0] == '\n' {
        assert(rest.take(end) =~= line);
    } else {
        assert(rest.take(end) =~= line.push('\r'));
        assert(line.push('\r').drop_last() =~= line);
    }
    assert(lines(rest)[0] == line);
    assert(last_word(line) == Some(uuid)) by {
        let from = n + 9;
        assert(line[from - 1] == ' ');
        assert forall|j: int| from <= j < line.len() implies !is_space(line[j]) by {
            assert(line[j] == uuid[j - from]);
        }
        lemma_tail_word(line, from);
        assert(line.skip(from) =~= uuid);
    }
}

/// What follows the end of an array does not matter to where it ends.
proof fn lemma_closing_prefix(s: Seq<char>, after: Seq<char>, reading: Reading)
    requires
        closing(s, reading) is Some,
    ensures
        closing(s + after, reading) == closing(s, reading),
    decreases s.len(),
{
    let all = s + after;
    assert(all[0] == s[0]);
    if reading.next(s[0]).depth != 0 {
        lemma_closing_prefix(s.drop_first(), after, reading.next(s[0]));
        assert(all.drop_first() =~= s.drop_first() + after);
    }
}

/// The first array is found, whatever log lines follow it, as long as no `[`
/// stands before it.
pub proof fn law_array_found(before: Seq<char>, array: Seq<char>, after: Seq<char>)
    requires
        is_array(array),
        !before.contains('['),
    ensures
        ({
            let stdout = before + array + after;
            &&& array_start(stdout) == before.len()
            &&& stdout.subrange(array_start(stdout), array_end(stdout)) == array
        }),
{
    let stdout = before + array + after;
    let start = before.len() as int;
    assert(stdout[start] == '[');
    assert forall|j: int| 0 <= j < start implies stdout[j] != '[' by {
        assert(stdout[j] == before[j]);
        assert(before.contains(before[j]));
    }
    lemma_first_of_at(stdout, '[', start);
    assert(stdout.contains('['));
    lemma_closing_prefix(array, after, unread());
    assert(stdout.skip(start) =~= array + after);
    assert(stdout.subrange(start, start + array.len()) =~= array);
}

/// What is asked of cloudflared, word by word.
pub proof fn law_args(name: Seq<char>, uuid: Seq<char>, hostname: Seq<char>, path: Seq<char>)
    ensures
        list_args_of() =~= Seq::empty().push("tunnel"@).push("list"@).push("-o"@).push("json"@),
        create_args_of(name) =~= Seq::empty().push("tunnel"@).push("create"@).push(name),
        delete_args_of(uuid) =~= Seq::empty().push("tunnel"@).push("delete"@).push(uuid),
        route_args_of(name, hostname) =~= Seq::empty().push("tunnel"@).push("route"@).push(
            "dns"@,
        ).push(name).push(hostname),
        unroute_args_of(hostname) =~= Seq::empty().push("tunnel"@).push("route"@).push("dns"@).push(
            "delete"@,
        ).push(hostname),
        run_args_of(path) =~= Seq::empty().push("tunnel"@).push("--config"@).push(path).push(
            "run"@,
        ),
{
}

/// A run that ended well is worth what it printed; one that did not is an error that
/// quotes the command, the status and all that it printed.
pub proof fn law_checked(args: Seq<Seq<char>>, output: CommandOutputView)
    ensures
        output.success ==> checked(args, output) == Ok::<Seq<char>, ErrorView>(
            lossy_text(output.stdout),
        ),
        !output.success ==> checked(args, output) == Err::<Seq<char>, ErrorView>(
            ErrorView::CommandFailed {
                command: spaced(args),
                status: output.status,
                stdout: trimmed(lossy_text(output.stdout)),
                stderr: trimmed(lossy_text(output.stderr)),
            },
        ),
{
}

/// A run that should list the tunnels is worth the array that it printed, or is an
/// error that quotes what it complained of.
pub proof fn law_listed(output: CommandOutputView)
    ensures
        !output.success ==> listed_of(output) == Err::<Seq<char>, ErrorView>(
            ErrorView::ListFailed { stderr: trimmed(lossy_text(output.stderr)) },
        ),
        output.success ==> ({
            let text = lossy_text(output.stdout);
            listed_of(output) == Ok::<Seq<char>, ErrorView>(
                text.subrange(array_start(text), array_end(text)),
            )
        }),
{
}

/// The id is the last word of the first line that says `with id`, whatever lines
/// stand around it.
pub proof fn law_uuid_is_last_word(before: Seq<char>, line: Seq<char>, after: Seq<char>)
    requires
        before.len() == 0 || before.last() == '\n',
        !contains(before, "with id"@),
        !line.contains('\n'),
        contains(line, "with id"@),
        after.len() == 0 || after[0] == '\n',
    ensures
        uuid_of(before + line + after) == last_word(line),
{
    reveal_strlit("with id");
    let p = "with id"@;
    let rest = line + after;
    assert(before + line + after =~= before + rest);
    lemma_first_with_after(before, rest);
    let at = choose|at: int| occurs_at(line, p, at);
    assert(line.subrange(at, at + 7)[6] == 'd');
    assert(line[at + 6] == 'd');
    assert forall|j: int| 0 <= j < line.len() implies rest[j] != '\n' by {
        assert(rest[j] == line[j]);
        assert(line.contains(line[j]));
    }
    lemma_first_of_at(rest, '\n', line.len() as int);
    if after.len() == 0 {
        assert(rest =~= line);
        assert(lines(rest)[0] == line);
    } else {
        assert(rest.take(line.len() as int) =~= line);
        let first = without_return(line);
        assert(lines(rest)[0] == first);
        assert(first.subrange(at, at + 7) =~= line.subrange(at, at + 7));
        assert(occurs_at(first, p, at));
        if line.last() == '\r' {
            assert(trimmed_end(line) == trimmed_end(first));
        }
    }
}

/// How many more `[` than `]` stand in `s`.
pub open spec fn surplus(s: Seq<char>) -> int {
    s.to_multiset().count('[') - s.to_multiset().count(']')
}

/// Whether `s` can stand between the quotes of a string: a quote in it stands behind
/// a backslash that belongs to it.
pub open spec fn is_quotable(s: Seq<char>) -> bool
    decreases s.len(),
{
    ||| s.len() == 0
    ||| s.len() > 0 && s[0] != '"' && s[0] != '\\' && is_quotable(s.drop_first())
    ||| s.len() > 1 && s[0] == '\\' && is_quotable(s.skip(2))
}

/// The texts `plain` with the strings `quoted` between them.
pub open spec fn with_strings(plain: Seq<Seq<char>>, quoted: Seq<Seq<char>>) -> Seq<char>
    decreases quoted.len(),
{
    if quoted.len() == 0 {
        plain[0]
    } else {
        plain[0] + seq!['"'] + quoted[0] + seq!['"'] + with_strings(
            plain.drop_first(),
            quoted.drop_first(),
        )
    }
}

/// What is `plain` outside the strings of a text.
pub open spec fn outside_strings(plain: Seq<Seq<char>>) -> Seq<char> {
    plain.flatten()
}

/// Whether `plain` and `quoted` are the parts of a text outside and inside its
/// strings, and its first bracket, with which it begins, stays open to its end: every
/// beginning of what stands outside strings has more `[` than `]`.
pub open spec fn stays_open(plain: Seq<Seq<char>>, quoted: Seq<Seq<char>>) -> bool {
    &&& plain.len() == quoted.len() + 1
    &&& forall|i: int| 0 <= i < plain.len() ==> !(#[trigger] plain[i]).contains('"')
    &&& forall|i: int| 0 <= i < quoted.len() ==> is_quotable(#[trigger] quoted[i])
    &&& plain[0].len() > 0
    &&& plain[0][0] == '['
    &&& forall|k: int|
        0 < k <= outside_strings(plain).len() ==> surplus(
            #[trigger] outside_strings(plain).take(k),
        ) > 0
}

/// What the reader would read after `n` characters more.
spec fn later(found: Option<int>, n: int) -> Option<int> {
    match found {
        Some(m) => Some(m + n),
        None => None,
    }
}

proof fn lemma_surplus_push(s: Seq<char>, c: char)
    ensures
        surplus(s.push(c)) == surplus(s) + (if c == '[' { 1int } else { 0 }) - (if c == ']' {
            1int
        } else {
            0
        }),
{
    broadcast use vstd::seq_lib::group_to_multiset_ensures;

}

/// Reading what stands outside strings.
proof fn lemma_closing_plain(done: Seq<char>, p: Seq<char>, rest: Seq<char>)
    requires
        !p.contains('"'),
        forall|k: int| 0 < k <= p.len() ==> surplus(#[trigger] (done + p.take(k))) > 0,
    ensures
        closing(p + rest, Reading { depth: surplus(done), quoted: false, escaped: false }) == later(
            closing(rest, Reading { depth: surplus(done + p), quoted: false, escaped: false }),
            p.len() as int,
        ),
    decreases p.len(),
{
    if p.len() == 0 {
        assert(p + rest =~= rest);
        assert(done + p =~= done);
    } else {
        let c = p[0];
        assert(p.contains(c));
        let tail = p.drop_first();
        let next = done.push(c);
        lemma_surplus_push(done, c);
        assert(done + p.take(1) =~= next);
        assert((p + rest)[0] == c);
        assert((p + rest).drop_first() =~= tail + rest);
        assert(next + tail =~= done + p);
        assert forall|k: int| 0 < k <= tail.len() implies surplus(#[trigger] (next + tail.take(k)))
            > 0 by {
            assert(next + tail.take(k) =~= done + p.take(k + 1));
        }
        assert(!tail.contains('"')) by {
            if tail.contains('"') {
                let j = choose|j: int| 0 <= j < tail.len() && tail[j] == '"';
                assert(p[j + 1] == '"');
            }
        }
        lemma_closing_plain(next, tail, rest);
    }
}

/// Reading the inside of a string, and the quote that ends it.
proof fn lemma_closing_quoted(depth: int, q: Seq<char>, rest: Seq<char>)
    requires
        depth > 0,
        is_quotable(q),
    ensures
        closing(q + seq!['"'] + rest, Reading { depth, quoted: true, escaped: false }) == later(
            closing(rest, Reading { depth, quoted: false, escaped: false }),
            q.len() as int + 1,
        ),
    decreases q.len(),
{
    let all = q + seq!['"'] + rest;
    let inside = Reading { depth, quoted: true, escaped: false };
    if q.len() == 0 {
        assert(all[0] == '"');
        assert(all.drop_first() =~= rest);
    } else if q[0] != '"' && q[0] != '\\' && is_quotable(q.drop_first()) {
        assert(all[0] == q[0]);
        assert(all.drop_first() =~= q.drop_first() + seq!['"'] + rest);
        lemma_closing_quoted(depth, q.drop_first(), rest);
    } else {
        assert(all[0] == '\\');
        let one = all.drop_first();
        assert(one[0] == q[1]);
        assert(one.drop_first() =~= q.skip(2) + seq!['"'] + rest);
        lemma_closing_quoted(depth, q.skip(2), rest);
        let escaped = Reading { depth, quoted: true, escaped: true };
        assert(inside.next(all[0]) == escaped);
        assert(escaped.next(one[0]) == inside);
        assert(closing(one, escaped) == later(closing(one.drop_first(), inside), 1));
    }
}

/// Reading a text whose first bracket stays open.
proof fn lemma_closing_parts(
    done: Seq<char>,
    plain: Seq<Seq<char>>,
    quoted: Seq<Seq<char>>,
    rest: Seq<char>,
)
    requires
        plain.len() == quoted.len() + 1,
        forall|i: int| 0 <= i < plain.len() ==> !(#[trigger] plain[i]).contains('"'),
        forall|i: int| 0 <= i < quoted.len() ==> is_quotable(#[trigger] quoted[i]),
        done.len() > 0 ==> surplus(done) > 0,
        done.len() > 0 || plain[0].len() > 0,
        forall|k: int|
            0 < k <= outside_strings(plain).len() ==> surplus(
                #[trigger] (done + outside_strings(plain).take(k)),
            ) > 0,
    ensures
        closing(
            with_strings(plain, quoted) + rest,
            Reading { depth: surplus(done), quoted: false, escaped: false },
        ) == later(
            closing(
                rest,
                Reading {
                    depth: surplus(done + outside_strings(plain)),
                    quoted: false,
                    escaped: false,
                },
            ),
            with_strings(plain, quoted).len() as int,
        ),
    decreases quoted.len(),
{
    let p = plain[0];
    let text = outside_strings(plain);
    let tail = plain.drop_first();
    assert(text =~= p + outside_strings(tail));
    assert forall|k: int| 0 < k <= p.len() implies surplus(#[trigger] (done + p.take(k))) > 0 by {
        assert(p.take(k) =~= text.take(k));
        assert(surplus(done + text.take(k)) > 0);
    }
    if quoted.len() == 0 {
        assert(tail =~= Seq::<Seq<char>>::empty());
        assert(outside_strings(tail) =~= Seq::<char>::empty());
        assert(text =~= p);
        lemma_closing_plain(done, p, rest);
    } else {
        let q = quoted[0];
        let more = with_strings(tail, quoted.drop_first());
        let behind = q + seq!['"'] + (more + rest);
        let next = done + p;
        assert(with_strings(plain, quoted) + rest =~= p + (seq!['"'] + behind));
        lemma_closing_plain(done, p, seq!['"'] + behind);
        assert(next.len() > 0);
        assert(surplus(next) > 0) by {
            if p.len() > 0 {
                assert(p.take(p.len() as int) =~= p);
            } else {
                assert(next =~= done);
            }
        }
        assert((seq!['"'] + behind)[0] == '"');
        assert((seq!['"'] + behind).drop_first() =~= behind);
        lemma_closing_quoted(surplus(next), q, more + rest);
        assert forall|k: int| 0 < k <= outside_strings(tail).len() implies surplus(
            #[trigger] (next + outside_strings(tail).take(k)),
        ) > 0 by {
            let whole = text.take(p.len() + k);
            assert(next + outside_strings(tail).take(k) =~= done + whole);
        }
        assert forall|i: int| 0 <= i < tail.len() implies !(#[trigger] tail[i]).contains('"') by {
            assert(tail[i] == plain[i + 1]);
        }
        assert forall|i: int| 0 <= i < quoted.drop_first().len() implies is_quotable(
            #[trigger] quoted.drop_first()[i],
        ) by {
            assert(quoted.drop_first()[i] == quoted[i + 1]);
        }
        lemma_closing_parts(next, tail, quoted.drop_first(), rest);
        assert(next + outside_strings(tail) =~= done + text);
    }
}

/// Where the first bracket is found, and reading goes on from there.
proof fn lemma_reading_starts(
    before: Seq<char>,
    plain: Seq<Seq<char>>,
    quoted: Seq<Seq<char>>,
    rest: Seq<char>,
)
    requires
        !before.contains('['),
        stays_open(plain, quoted),
    ensures
        ({
            let text = with_strings(plain, quoted);
            let stdout = before + text + rest;
            &&& stdout.contains('[')
            &&& array_start(stdout) == before.len()
            &&& closing(stdout.skip(before.len() as int), unread()) == later(
                closing(
                    rest,
                    Reading {
                        depth: surplus(outside_strings(plain)),
                        quoted: false,
                        escaped: false,
                    },
                ),
                text.len() as int,
            )
        }),
{
    let text = with_strings(plain, quoted);
    let stdout = before + text + rest;
    let start = before.len() as int;
    let none: Seq<char> = Seq::empty();
    assert(text[0] == plain[0][0]);
    assert(stdout[start] == '[');
    assert forall|j: int| 0 <= j < start implies stdout[j] != '[' by {
        assert(stdout[j] == before[j]);
        assert(before.contains(before[j]));
    }
    lemma_first_of_at(stdout, '[', start);
    assert(surplus(none) == 0) by {
        broadcast use vstd::seq_lib::group_to_multiset_ensures;
        assert(none.to_multiset().len() == 0);
    }
    assert forall|k: int| 0 < k <= outside_strings(plain).len() implies surplus(
        #[trigger] (none + outside_strings(plain).take(k)),
    ) > 0 by {
        assert(none + outside_strings(plain).take(k) =~= outside_strings(plain).take(k));
    }
    lemma_closing_parts(none, plain, quoted, rest);
    assert(none + outside_strings(plain) =~= outside_strings(plain));
    assert(stdout.skip(start) =~= text + rest);
}

/// An array is taken whole, whatever stands in it and after it: it begins with the
/// first `[`, and ends with the `]` that makes as many `]` as `[`, counted outside
/// strings.
pub proof fn law_array_by_counting(
    before: Seq<char>,
    plain: Seq<Seq<char>>,
    quoted: Seq<Seq<char>>,
    after: Seq<char>,
)
    requires
        !before.contains('['),
        stays_open(plain, quoted),
        surplus(outside_strings(plain)) == 1,
    ensures
        ({
            let array = with_strings(plain, quoted).push(']');
            let stdout = before + array + after;
            &&& array_start(stdout) == before.len()
            &&& array_end(stdout) == before.len() + array.len()
            &&& stdout.subrange(array_start(stdout), array_end(stdout)) == array
        }),
{
    let text = with_strings(plain, quoted);
    let array = text.push(']');
    let stdout = before + array + after;
    let rest = seq![']'] + after;
    assert(stdout =~= before + text + rest);
    lemma_reading_starts(before, plain, quoted, rest);
    assert(rest[0] == ']');
    assert(stdout.subrange(before.len() as int, (before.len() + array.len()) as int) =~= array);
}

/// A text whose first bracket is not closed is taken to its end, and one without a
/// bracket as it is.
pub proof fn law_array_unclosed(
    before: Seq<char>,
    plain: Seq<Seq<char>>,
    quoted: Seq<Seq<char>>,
)
    requires
        !before.contains('['),
        stays_open(plain, quoted),
    ensures
        ({
            let text = with_strings(plain, quoted);
            let stdout = before + text;
            stdout.subrange(array_start(stdout), array_end(stdout)) == text
        }),
        before.subrange(array_start(before), array_end(before)) == before,
{
    let text = with_strings(plain, quoted);
    let none: Seq<char> = Seq::empty();
    assert(before + text + none =~= before + text);
    lemma_reading_starts(before, plain, quoted, none);
    assert((before + text).subrange(before.len() as int, (before + text).len() as int) =~= text);
    assert(before.subrange(0, before.len() as int) =~= before);
}

/// What is said of a tunnel that cloudflared lists, or of a run of cloudflared, is said
/// of all that it told.
pub proof fn law_cloudflared_in_view(t: CloudflaredTunnel, output: CommandOutput)
    ensures
        t@.id == t.id@,
        t@.name == t.name@,
        t@.created_at == t.created_at@,
        t@.connections == t.connections as nat,
        t.deep_view() == t@,
        output@.success == output.success,
        output@.status == output.status@,
        output@.stdout == output.stdout@,
        output@.stderr == output.stderr@,
{
}

} // verus!
