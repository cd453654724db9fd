//! PIN method: exactly one pam_pwdfile line; anything else disables this method.

use vstd::prelude::*;

use crate::text::{
    basename, basename_start, chars_of, has_prefix, is_white_space, lemma_lines_nonempty,
    lemma_trimmed_has_word, lines, range_is, range_starts_with, span, spans, trim, trim_range,
    word_ranges, words,
};

verus! {

pub const SERVICE_NAME: &'static str = "mechanix-lockscreen";

pub const MODULE_NAME: &'static str = "pam_pwdfile.so";

pub const PIN_FILE: &'static str = "/etc/mechanix/pin.passwd";

pub const CONTROL: &'static str = "required";

/// The directories searched for the service file, in order.
pub const SERVICE_DIR_ETC: &'static str = "/etc/pam.d";

pub const SERVICE_DIR_LIB: &'static str = "/usr/lib/pam.d";

/// The directories searched for the service file, in order.
pub fn service_dirs() -> (dirs: Vec<&'static str>)
    ensures
        dirs@.map_values(|d: &str| d@) == seq![SERVICE_DIR_ETC@, SERVICE_DIR_LIB@],
{
    let mut dirs: Vec<&'static str> = Vec::new();
    dirs.push(SERVICE_DIR_ETC);
    dirs.push(SERVICE_DIR_LIB);
    assert(dirs@.map_values(|d: &str| d@) =~= seq![SERVICE_DIR_ETC@, SERVICE_DIR_LIB@]);
    dirs
}

/// The accepted PAM service configuration.
#[derive(Debug, Clone, PartialEq, Eq)]
pub struct ServiceConfig {
    pub path: String,
    pub pwdfile: String,
}

#[derive(Debug, PartialEq, Eq)]
pub enum ConfigError {
    NotFound,
    Invalid(String),
    Io(String),
}

/// Name for the text that `format!("{:?}", ..)` gives for a list of string
/// slices with the given characters.
pub uninterp spec fn debug_str_list(items: Seq<Seq<char>>) -> Seq<char>;

/// Calls `format!("{:?}", items)`. Trusted: the result is what the `Debug`
/// impl of a slice of `&str` writes for these characters, a function of them
/// alone; its form (brackets, quotes, escapes) is not stated.
#[verifier::external_body]
fn format_debug_str_list(items: &Vec<&str>) -> (s: String)
    ensures
        s@ == debug_str_list(items@.map_values(|x: &str| x@)),
{
    format!("{:?}", items)
}

/// `value` wrapped in the message text: `prefix`, the value, a closing quote.
pub open spec fn quoted(prefix: Seq<char>, value: Seq<char>) -> Seq<char> {
    prefix + value + "'"@
}

/// The verdict on one trimmed, active stack line.
pub enum LineCheck {
    Skip,
    Accept(Seq<char>),
    Reject(Seq<char>),
}

/// What one active stack line must look like:
/// `auth required <path>/pam_pwdfile.so pwdfile=/etc/mechanix/pin.passwd`.
pub open spec fn check_stack_line(line: Seq<char>) -> LineCheck {
    let w = words(line);
    if w.len() == 0 {
        LineCheck::Skip
    } else if w.len() == 1 {
        LineCheck::Reject(quoted("line without control: '"@, line))
    } else if w.len() == 2 {
        LineCheck::Reject(quoted("line without module: '"@, line))
    } else if w[0] != "auth"@ {
        LineCheck::Reject(quoted("only 'auth' stack lines are enforced, found '"@, w[0]))
    } else if w[1] != CONTROL@ {
        LineCheck::Reject(quoted("control must be '"@ + CONTROL@ + "', found '"@, w[1]))
    } else if basename(w[2]) != MODULE_NAME@ {
        LineCheck::Reject(quoted("module must be "@ + MODULE_NAME@ + ", found '"@, w[2]))
    } else if w.len() != 4 {
        LineCheck::Reject(
            "expected exactly one argument (pwdfile=), found "@ + debug_str_list(
                w.subrange(3, w.len() as int),
            ),
        )
    } else if !has_prefix(w[3], "pwdfile="@) {
        LineCheck::Reject(quoted("expected 'pwdfile=…' argument, found '"@, w[3]))
    } else if w[3].skip("pwdfile="@.len() as int) != PIN_FILE@ {
        LineCheck::Reject(
            quoted(
                "pwdfile must be "@ + PIN_FILE@ + ", found '"@,
                w[3].skip("pwdfile="@.len() as int),
            ),
        )
    } else {
        LineCheck::Accept(w[3].skip("pwdfile="@.len() as int))
    }
}

/// A trimmed line takes part in the stack unless it is empty or a comment.
pub open spec fn is_active(line: Seq<char>) -> bool {
    line.len() > 0 && line[0] != '#'
}

/// The scan state after one more raw line: the pwdfile found so far, or the
/// message of the first rejection.
pub open spec fn scan_step(acc: Result<Option<Seq<char>>, Seq<char>>, raw: Seq<char>) -> Result<
    Option<Seq<char>>,
    Seq<char>,
> {
    match acc {
        Err(m) => Err(m),
        Ok(found) => {
            let line = trim(raw);
            if !is_active(line) {
                Ok(found)
            } else if found is Some {
                Err("more than one active stack line"@)
            } else {
                match check_stack_line(line) {
                    LineCheck::Skip => Ok(None),
                    LineCheck::Accept(p) => Ok(Some(p)),
                    LineCheck::Reject(m) => Err(m),
                }
            }
        },
    }
}

/// The scan state after all of `ls`, in order.
pub open spec fn scan_lines(ls: Seq<Seq<char>>) -> Result<Option<Seq<char>>, Seq<char>>
    decreases ls.len(),
{
    if ls.len() == 0 {
        Ok(None)
    } else {
        scan_step(scan_lines(ls.drop_last()), ls.last())
    }
}

/// The verdict on a service file: the pwdfile of its one active stack line,
/// or the message explaining the rejection.
pub open spec fn validated(content: Seq<char>) -> Result<Seq<char>, Seq<char>> {
    match scan_lines(lines(content)) {
        Err(m) => Err(m),
        Ok(Some(p)) => Ok(p),
        Ok(None) => Err("no active stack lines"@),
    }
}

/// What a `ConfigError` says when displayed.
pub open spec fn config_error_message(e: ConfigError) -> Seq<char> {
    match e {
        ConfigError::NotFound => "PAM service '"@ + SERVICE_NAME@ + "' not found in "@
            + SERVICE_DIR_ETC@ + ", "@ + SERVICE_DIR_LIB@,
        ConfigError::Invalid(detail) => "PAM service '"@ + SERVICE_NAME@ + "' rejected: "@
            + detail@,
        ConfigError::Io(detail) => "PAM service unreadable: "@ + detail@,
    }
}

/// The path of the service file inside directory `dir`.
pub open spec fn joined_service_path(dir: Seq<char>) -> Seq<char> {
    if dir.len() == 0 {
        SERVICE_NAME@
    } else if dir.last() == '/' {
        dir + SERVICE_NAME@
    } else {
        dir + "/"@ + SERVICE_NAME@
    }
}

fn concat(a: &str, b: &str) -> (s: String)
    ensures
        s@ == a@ + b@,
{
    let mut s = String::from_str(a);
    s.append(b);
    s
}

fn quote_value(prefix: &str, value: &str) -> (s: String)
    ensures
        s@ == quoted(prefix@, value@),
{
    let mut s = String::from_str(prefix);
    s.append(value);
    s.append("'");
    s
}

impl ConfigError {
    /// The text shown for this error.
    pub fn message(&self) -> (m: String)
        ensures
            m@ == config_error_message(*self),
    {
        match self {
            ConfigError::NotFound => {
                let mut m = String::from_str("PAM service '");
                m.append(SERVICE_NAME);
                m.append("' not found in ");
                m.append(SERVICE_DIR_ETC);
                m.append(", ");
                m.append(SERVICE_DIR_LIB);
                m
            },
            ConfigError::Invalid(detail) => {
                let mut m = String::from_str("PAM service '");
                m.append(SERVICE_NAME);
                m.append("' rejected: ");
                m.append(detail.as_str());
                m
            },
            ConfigError::Io(detail) => concat("PAM service unreadable: ", detail.as_str()),
        }
    }
}

enum LineVerdict {
    Skip,
    Accept((usize, usize)),
    Reject(String),
}

/// Checks the trimmed, active line `cs[a..b]`.
fn check_line(content: &str, cs: &Vec<char>, a: usize, b: usize) -> (v: LineVerdict)
    requires
        a <= b <= cs.len(),
        cs@ == content@,
    ensures
        match v {
            LineVerdict::Skip => check_stack_line(cs@.subrange(a as int, b as int))
                is Skip,
            LineVerdict::Accept(r) => a <= r.0 <= r.1 <= b && check_stack_line(
                cs@.subrange(a as int, b as int),
            ) == LineCheck::Accept(span(cs@, r)),
            LineVerdict::Reject(m) => check_stack_line(cs@.subrange(a as int, b as int))
                == LineCheck::Reject(m@),
        },
{
    let ghost line = cs@.subrange(a as int, b as int);
    let ws = word_ranges(cs, a, b);
    let ghost w = words(line);
    assert(w.len() == ws@.len());
    assert(forall|k: int| 0 <= k < ws@.len() ==> w[k] == span(cs@, #[trigger] ws@[k]));
    if ws.len() == 0 {
        return LineVerdict::Skip;
    }
    if ws.len() == 1 {
        return LineVerdict::Reject(
            quote_value("line without control: '", content.substring_char(a, b)),
        );
    }
    if ws.len() == 2 {
        return LineVerdict::Reject(
            quote_value("line without module: '", content.substring_char(a, b)),
        );
    }
    let (s0, e0) = ws[0];
    let (s1, e1) = ws[1];
    let (s2, e2) = ws[2];
    if !range_is(cs, s0, e0, "auth") {
        return LineVerdict::Reject(
            quote_value(
                "only 'auth' stack lines are enforced, found '",
                content.substring_char(s0, e0),
            ),
        );
    }
    if !range_is(cs, s1, e1, CONTROL) {
        let mut prefix = String::from_str("control must be '");
        prefix.append(CONTROL);
        prefix.append("', found '");
        return LineVerdict::Reject(quote_value(prefix.as_str(), content.substring_char(s1, e1)));
    }
    let base = basename_start(cs, s2, e2);
    if !range_is(cs, base, e2, MODULE_NAME) {
        let mut prefix = String::from_str("module must be ");
        prefix.append(MODULE_NAME);
        prefix.append(", found '");
        return LineVerdict::Reject(quote_value(prefix.as_str(), content.substring_char(s2, e2)));
    }
    if ws.len() != 4 {
        let mut args: Vec<&str> = Vec::new();
        let mut k: usize = 3;
        while k < ws.len()
            invariant
                3 <= k <= ws.len(),
                ws@.len() == w.len(),
                cs@ == content@,
                forall|j: int| 0 <= j < ws@.len() ==> w[j] == span(cs@, #[trigger] ws@[j]),
                forall|j: int|
                    0 <= j < ws@.len() ==> a <= #[trigger] ws@[j].0 <= ws@[j].1 <= b,
                b <= cs.len(),
                args@.map_values(|x: &str| x@) == w.subrange(3, k as int),
            decreases ws.len() - k,
        {
            let (s, e) = ws[k];
            let piece = content.substring_char(s, e);
            let ghost before = args@.map_values(|x: &str| x@);
            args.push(piece);
            assert(args@.map_values(|x: &str| x@) =~= before.push(w[k as int]));
            assert(w.subrange(3, k + 1) =~= w.subrange(3, k as int).push(w[k as int]));
            k += 1;
        }
        let listed = format_debug_str_list(&args);
        return LineVerdict::Reject(
            concat("expected exactly one argument (pwdfile=), found ", listed.as_str()),
        );
    }
    let (s3, e3) = ws[3];
    if !range_starts_with(cs, s3, e3, "pwdfile=") {
        return LineVerdict::Reject(
            quote_value("expected 'pwdfile=…' argument, found '", content.substring_char(s3, e3)),
        );
    }
    let key_len = "pwdfile=".unicode_len();
    let p0 = s3 + key_len;
    assert(w[3].skip("pwdfile="@.len() as int) =~= cs@.subrange(p0 as int, e3 as int));
    if !range_is(cs, p0, e3, PIN_FILE) {
        let mut prefix = String::from_str("pwdfile must be ");
        prefix.append(PIN_FILE);
        prefix.append(", found '");
        return LineVerdict::Reject(quote_value(prefix.as_str(), content.substring_char(p0, e3)));
    }
    LineVerdict::Accept((p0, e3))
}

/// The scan state kept while walking the lines of a service file.
struct Scan {
    found: Option<(usize, usize)>,
    failure: Option<String>,
}

impl Scan {
    spec fn state(&self, cs: Seq<char>) -> Result<Option<Seq<char>>, Seq<char>> {
        match self.failure {
            Some(m) => Err(m@),
            None => Ok(
                match self.found {
                    Some(r) => Some(span(cs, r)),
                    None => None,
                },
            ),
        }
    }

    spec fn in_bounds(&self, n: nat) -> bool {
        self.found matches Some(r) ==> r.0 <= r.1 <= n
    }

    /// Takes the raw line `cs[a..b]` into the scan.
    fn take_line(&mut self, content: &str, cs: &Vec<char>, a: usize, b: usize)
        requires
            a <= b <= cs.len(),
            cs@ == content@,
            old(self).in_bounds(cs@.len()),
        ensures
            final(self).state(cs@) == scan_step(
                old(self).state(cs@),
                cs@.subrange(a as int, b as int),
            ),
            final(self).in_bounds(cs@.len()),
    {
        if self.failure.is_some() {
            return ;
        }
        let (lo, hi) = trim_range(cs, a, b);
        if lo == hi || cs[lo] == '#' {
            return ;
        }
        if self.found.is_some() {
            self.failure = Some(String::from_str("more than one active stack line"));
            return ;
        }
        match check_line(content, cs, lo, hi) {
            LineVerdict::Skip => {},
            LineVerdict::Accept(r) => {
                self.found = Some(r);
            },
            LineVerdict::Reject(m) => {
                self.failure = Some(m);
            },
        }
    }
}

/// Checks the text of the PAM service file. It is accepted when exactly one
/// line, once trimmed, is neither empty nor a comment, and that line reads
/// `auth required <dir>/pam_pwdfile.so pwdfile=/etc/mechanix/pin.passwd`;
/// every other text is rejected with a message naming the first fault.
pub fn validate_content(content: &str) -> (r: Result<ServiceConfig, ConfigError>)
    ensures
        match r {
            Ok(cfg) => validated(content@) == Ok::<Seq<char>, Seq<char>>(cfg.pwdfile@)
                && cfg.path@ == PIN_FILE@,
            Err(ConfigError::Invalid(m)) => validated(content@) == Err::<Seq<char>, Seq<char>>(
                m@,
            ),
            Err(_) => false,
        },
        r matches Ok(cfg) ==> cfg.pwdfile@ == PIN_FILE@,
{
    proof {
        lemma_accepts_exactly_one_line(content@);
    }
    let cs = chars_of(content);
    let n = cs.len();
    let mut scan = Scan { found: None, failure: None };
    let mut start: usize = 0;
    let mut i: usize = 0;
    proof {
        lemma_lines_nonempty(cs@.take(0));
        assert(cs@.take(0) =~= Seq::<char>::empty());
    }
    while i < n
        invariant
            0 <= start <= i <= n == cs@.len(),
            cs@ == content@,
            scan.in_bounds(cs@.len()),
            lines(cs@.take(i as int)).len() >= 1,
            lines(cs@.take(i as int)).last() == cs@.subrange(start as int, i as int),
            scan.state(cs@) == scan_lines(lines(cs@.take(i as int)).drop_last()),
        decreases n - i,
    {
        let ghost prev = lines(cs@.take(i as int));
        assert(cs@.take(i + 1).drop_last() =~= cs@.take(i as int));
        assert(cs@.take(i + 1).last() == cs@[i as int]);
        if cs[i] == '\n' {
            scan.take_line(content, &cs, start, i);
            assert(lines(cs@.take(i + 1)).drop_last() =~= prev);
            assert(prev.drop_last().push(prev.last()) =~= prev);
            start = i + 1;
            assert(cs@.subrange(start as int, i + 1) =~= Seq::<char>::empty());
        } else {
            assert(lines(cs@.take(i + 1)).drop_last() =~= prev.drop_last());
            assert(cs@.subrange(start as int, i + 1) =~= cs@.subrange(start as int, i as int).push(
                cs@[i as int],
            ));
        }
        i += 1;
    }
    assert(cs@.take(n as int) =~= cs@);
    let ghost all = lines(cs@);
    scan.take_line(content, &cs, start, n);
    assert(all.drop_last().push(all.last()) =~= all);
    match scan.failure {
        Some(m) => Err(ConfigError::Invalid(m)),
        None => match scan.found {
            Some(r) => Ok(
                ServiceConfig {
                    path: String::from_str(PIN_FILE),
                    pwdfile: String::from_str(content.substring_char(r.0, r.1)),
                },
            ),
            None => Err(ConfigError::Invalid(String::from_str("no active stack lines"))),
        },
    }
}

/// The number of lines of `ls` that are active once trimmed.
pub open spec fn active_count(ls: Seq<Seq<char>>) -> nat
    decreases ls.len(),
{
    if ls.len() == 0 {
        0
    } else {
        active_count(ls.drop_last()) + if is_active(trim(ls.last())) {
            1nat
        } else {
            0nat
        }
    }
}

proof fn lemma_scan_counts_active_lines(ls: Seq<Seq<char>>)
    ensures
        (scan_lines(ls) == Ok::<Option<Seq<char>>, Seq<char>>(None)) == (active_count(ls) == 0),
        scan_lines(ls) matches Ok(Some(p)) ==> active_count(ls) == 1 && p == PIN_FILE@,
        scan_lines(ls) is Err ==> active_count(ls) >= 1,
        active_count(ls) >= 2 ==> scan_lines(ls) is Err,
    decreases ls.len(),
{
    if ls.len() > 0 {
        lemma_scan_counts_active_lines(ls.drop_last());
        let line = trim(ls.last());
        if is_active(line) {
            lemma_trimmed_has_word(ls.last());
        }
    }
}

/// Law: a service file is accepted only when exactly one of its lines is
/// active, and then the accepted pwdfile is always `/etc/mechanix/pin.passwd`;
/// a file with no active line, or with more than one, is rejected.
pub proof fn lemma_accepts_exactly_one_line(content: Seq<char>)
    ensures
        validated(content) matches Ok(p) ==> p == PIN_FILE@ && active_count(lines(content))
            == 1,
        active_count(lines(content)) != 1 ==> validated(content) is Err,
        active_count(lines(content)) == 0 ==> validated(content) == Err::<Seq<char>, Seq<char>>(
            "no active stack lines"@,
        ),
{
    lemma_scan_counts_active_lines(lines(content));
}

/// The lines of `ls` that are active once trimmed, in order.
pub open spec fn active_lines(ls: Seq<Seq<char>>) -> Seq<Seq<char>>
    decreases ls.len(),
{
    if ls.len() == 0 {
        Seq::empty()
    } else {
        let prev = active_lines(ls.drop_last());
        if is_active(trim(ls.last())) {
            prev.push(ls.last())
        } else {
            prev
        }
    }
}

proof fn lemma_scan_sees_only_active_lines(ls: Seq<Seq<char>>)
    ensures
        scan_lines(ls) == scan_lines(active_lines(ls)),
    decreases ls.len(),
{
    if ls.len() > 0 {
        lemma_scan_sees_only_active_lines(ls.drop_last());
        let prev = active_lines(ls.drop_last());
        if is_active(trim(ls.last())) {
            assert(prev.push(ls.last()).drop_last() =~= prev);
        }
    }
}

/// The scan state after a sequence of lines depends on each line only
/// through its trimmed form.
proof fn lemma_scan_sees_trimmed_lines(a: Seq<Seq<char>>, b: Seq<Seq<char>>)
    requires
        a.len() == b.len(),
        forall|k: int| 0 <= k < a.len() ==> trim(#[trigger] a[k]) == trim(b[k]),
    ensures
        scan_lines(a) == scan_lines(b),
    decreases a.len(),
{
    if a.len() > 0 {
        assert forall|k: int| 0 <= k < a.drop_last().len() implies trim(
            #[trigger] a.drop_last()[k],
        ) == trim(b.drop_last()[k]) by {
            assert(trim(a[k]) == trim(b[k]));
        }
        lemma_scan_sees_trimmed_lines(a.drop_last(), b.drop_last());
        assert(trim(a[a.len() - 1]) == trim(b[b.len() - 1]));
    }
}

/// The active lines of `ls`, each trimmed.
pub open spec fn trimmed_active_lines(ls: Seq<Seq<char>>) -> Seq<Seq<char>> {
    active_lines(ls).map_values(|l: Seq<char>| trim(l))
}

/// Law: blank lines, white-space lines and comment lines never change the
/// verdict on a service file, and neither does white space around a line
/// (a CRLF line's carriage return among it, see
/// `lemma_trim_ignores_trailing_white_space`): two files whose active lines
/// read the same once trimmed, in the same order, get the same pwdfile or
/// the same rejection message.
pub proof fn lemma_inactive_lines_do_not_matter(c1: Seq<char>, c2: Seq<char>)
    requires
        trimmed_active_lines(lines(c1)) == trimmed_active_lines(lines(c2)),
    ensures
        validated(c1) == validated(c2),
{
    let a = active_lines(lines(c1));
    let b = active_lines(lines(c2));
    assert(a.len() == trimmed_active_lines(lines(c1)).len());
    assert forall|k: int| 0 <= k < a.len() implies trim(#[trigger] a[k]) == trim(b[k]) by {
        assert(trimmed_active_lines(lines(c1))[k] == trim(a[k]));
        assert(trimmed_active_lines(lines(c2))[k] == trim(b[k]));
    }
    lemma_scan_sees_only_active_lines(lines(c1));
    lemma_scan_sees_only_active_lines(lines(c2));
    lemma_scan_sees_trimmed_lines(a, b);
}

/// The path of the service file in `dir`, joined as `Path::join` does for a
/// relative file name.
pub fn service_path(dir: &str) -> (p: String)
    ensures
        p@ == joined_service_path(dir@),
{
    let n = dir.unicode_len();
    if n == 0 {
        String::from_str(SERVICE_NAME)
    } else if dir.get_char(n - 1) == '/' {
        concat(dir, SERVICE_NAME)
    } else {
        let mut p = String::from_str(dir);
        p.append("/");
        p.append(SERVICE_NAME);
        p
    }
}

/// The verdict on the service file read from `path`: that of
/// [`validate_content`], with the path appended to a rejection.
pub fn validate_service_file(path: &str, content: &str) -> (r: Result<ServiceConfig, ConfigError>)
    ensures
        match r {
            Ok(cfg) => validated(content@) == Ok::<Seq<char>, Seq<char>>(cfg.pwdfile@)
                && cfg.path@ == PIN_FILE@,
            Err(ConfigError::Invalid(m)) => validated(content@) matches Err(d) && m@ == d + " ("@
                + path@ + ")"@,
            Err(_) => false,
        },
{
    match validate_content(content) {
        Ok(cfg) => Ok(cfg),
        Err(ConfigError::Invalid(d)) => {
            let mut m = d;
            m.append(" (");
            m.append(path);
            m.append(")");
            Err(ConfigError::Invalid(m))
        },
        Err(other) => Err(other),
    }
}

/// The error for a service file at `path` that could not be read, with the
/// reader's error text `detail`.
pub fn io_failure(path: &str, detail: &str) -> (e: ConfigError)
    ensures
        e matches ConfigError::Io(m) && m@ == path@ + ": "@ + detail@,
{
    let mut m = String::from_str(path);
    m.append(": ");
    m.append(detail);
    ConfigError::Io(m)
}

/// The search for the installed service file over the service directories,
/// in order: the first file that can be read decides; when none can be read,
/// the last read error is reported, and `NotFound` when no directory was
/// tried. Its view is the text of the last read error, if any.
pub struct ServiceSearch {
    last: ConfigError,
}

impl View for ServiceSearch {
    type V = Option<Seq<char>>;

    closed spec fn view(&self) -> Option<Seq<char>> {
        match self.last {
            ConfigError::Io(m) => Some(m@),
            _ => None,
        }
    }
}

impl ServiceSearch {
    /// Only a read error or nothing is kept.
    #[verifier::type_invariant]
    closed spec fn keeps_read_errors(&self) -> bool {
        !(self.last is Invalid)
    }

    pub fn new() -> (s: ServiceSearch)
        ensures
            s@ is None,
    {
        ServiceSearch { last: ConfigError::NotFound }
    }

    /// The file at `path` was read, `Ok` with its content, or could not be,
    /// `Err` with the reader's error text. A read file decides the search:
    /// its verdict is returned. A failed read is remembered and the search
    /// goes on.
    pub fn visit(&mut self, path: &str, read: Result<&str, &str>) -> (decided: Option<
        Result<ServiceConfig, ConfigError>,
    >)
        ensures
            match read {
                Ok(content) => final(self)@ == old(self)@ && match decided {
                    Some(Ok(cfg)) => validated(content@) == Ok::<Seq<char>, Seq<char>>(
                        cfg.pwdfile@,
                    ) && cfg.path@ == PIN_FILE@,
                    Some(Err(ConfigError::Invalid(m))) => validated(content@) matches Err(d)
                        && m@ == d + " ("@ + path@ + ")"@,
                    _ => false,
                },
                Err(detail) => decided is None && final(self)@ == Some(path@ + ": "@ + detail@),
            },
    {
        match read {
            Ok(content) => Some(validate_service_file(path, content)),
            Err(detail) => {
                self.last = io_failure(path, detail);
                None
            },
        }
    }

    /// The error when no file could be read: the last read error, or
    /// `NotFound` when no directory was tried.
    pub fn finish(self) -> (e: ConfigError)
        ensures
            match self@ {
                None => e is NotFound,
                Some(t) => e matches ConfigError::Io(m) && m@ == t,
            },
    {
        proof {
            use_type_invariant(&self);
        }
        self.last
    }
}

/// Some line of `ls` begins with `prefix`.
pub open spec fn some_line_starts_with(ls: Seq<Seq<char>>, prefix: Seq<char>) -> bool {
    exists|k: int| 0 <= k < ls.len() && has_prefix(#[trigger] ls[k], prefix)
}

proof fn lemma_some_line_push(ls: Seq<Seq<char>>, x: Seq<char>, prefix: Seq<char>)
    ensures
        some_line_starts_with(ls.push(x), prefix) == (some_line_starts_with(ls, prefix)
            || has_prefix(x, prefix)),
{
    let ext = ls.push(x);
    if some_line_starts_with(ls, prefix) {
        let k = choose|k: int| 0 <= k < ls.len() && has_prefix(#[trigger] ls[k], prefix);
        assert(ext[k] == ls[k]);
    }
    if has_prefix(x, prefix) {
        assert(ext[ls.len() as int] == x);
    }
    if some_line_starts_with(ext, prefix) {
        let k = choose|k: int| 0 <= k < ext.len() && has_prefix(#[trigger] ext[k], prefix);
        if k < ls.len() {
            assert(ext[k] == ls[k]);
        }
    }
}

/// True when the password book `content` has a line beginning `{user}:`,
/// the shape the PIN setup tool writes.
pub fn book_lists(content: &str, user: &str) -> (listed: bool)
    ensures
        listed == some_line_starts_with(lines(content@), user@ + ":"@),
{
    let cs = chars_of(content);
    let prefix = concat(user, ":");
    let ghost p = user@ + ":"@;
    let n = cs.len();
    let mut listed = false;
    let mut start: usize = 0;
    let mut i: usize = 0;
    proof {
        lemma_lines_nonempty(cs@.take(0));
        assert(cs@.take(0) =~= Seq::<char>::empty());
        assert(lines(cs@.take(0)).drop_last() =~= Seq::<Seq<char>>::empty());
    }
    while i < n
        invariant
            0 <= start <= i <= n == cs@.len(),
            prefix@ == p,
            lines(cs@.take(i as int)).len() >= 1,
            lines(cs@.take(i as int)).last() == cs@.subrange(start as int, i as int),
            listed == some_line_starts_with(lines(cs@.take(i as int)).drop_last(), p),
        decreases n - i,
    {
        let ghost prev = lines(cs@.take(i as int));
        assert(cs@.take(i + 1).drop_last() =~= cs@.take(i as int));
        assert(cs@.take(i + 1).last() == cs@[i as int]);
        if cs[i] == '\n' {
            let hit = range_starts_with(&cs, start, i, prefix.as_str());
            proof {
                lemma_some_line_push(prev.drop_last(), prev.last(), p);
                assert(prev.drop_last().push(prev.last()) =~= prev);
                assert(lines(cs@.take(i + 1)).drop_last() =~= prev);
            }
            listed = listed || hit;
            start = i + 1;
            assert(cs@.subrange(start as int, i + 1) =~= Seq::<char>::empty());
        } else {
            assert(lines(cs@.take(i + 1)).drop_last() =~= prev.drop_last());
            assert(cs@.subrange(start as int, i + 1) =~= cs@.subrange(start as int, i as int).push(
                cs@[i as int],
            ));
        }
        i += 1;
    }
    assert(cs@.take(n as int) =~= cs@);
    let ghost all = lines(cs@);
    let hit = range_starts_with(&cs, start, n, prefix.as_str());
    proof {
        lemma_some_line_push(all.drop_last(), all.last(), p);
        assert(all.drop_last().push(all.last()) =~= all);
    }
    listed || hit
}

} // verus!
