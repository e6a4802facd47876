use vstd::prelude::*;
use vstd::string::*;
use vstd::utf8::*;

use crate::digest;
use crate::digest::sha256_bytes;
use crate::error::{failure, LegacyUploadEvidenceError, Outcome};
use crate::path;
use crate::path::{join_path, safe_absolute_path, same_path};
use crate::sealed;
use crate::sealed::{HeldGenerationSource, SourceRead, SHARED_WRITE_BITS};
use crate::text::{chars_of, same_text, text_of};

verus! {

/// The error of `core::str::from_utf8`.
#[verifier::external_type_specification]
#[verifier::external_body]
pub struct ExUtf8Error(core::str::Utf8Error);

/// `core::str::from_utf8` gives the text whose UTF-8 encoding the bytes are, and an error exactly
/// where the bytes are no valid UTF-8.
pub assume_specification<'a>[ core::str::from_utf8 ](v: &'a [u8]) -> (r: Result<
    &'a str,
    core::str::Utf8Error,
>)
    ensures
        r is Ok <==> valid_utf8(v@),
        r matches Ok(text) ==> text.spec_bytes() == v@,
;

/// How a line begins that states a designated requirement.
pub const DESIGNATED: &'static str = "designated => ";

/// The one requirement that a helper may be signed under, up to the team that signed it.
pub const REQUIREMENT_PREFIX: &'static str =
    "designated => anchor apple generic and identifier \"com.icloudpd-optimizer.helper\" and certificate leaf[subject.OU] = \"";

/// The number of characters that name a team.
pub const TEAM_CHARS: usize = 10;

/// Which program may use a recovery receipt: its content, and the requirement it is signed under.
#[derive(Debug, PartialEq, Eq)]
pub struct DeviceRecoverySigner {
    pub executable_sha256: String,
    pub designated_requirement_sha256: String,
}

impl Clone for DeviceRecoverySigner {
    fn clone(&self) -> (r: Self)
        ensures
            r == *self,
    {
        DeviceRecoverySigner {
            executable_sha256: self.executable_sha256.clone(),
            designated_requirement_sha256: self.designated_requirement_sha256.clone(),
        }
    }
}

impl DeviceRecoverySigner {
    /// The two signers are the same program under the same requirement.
    pub open spec fn same(self, other: Self) -> bool {
        &&& self.executable_sha256@ == other.executable_sha256@
        &&& self.designated_requirement_sha256@ == other.designated_requirement_sha256@
    }

    pub fn is_same(&self, other: &Self) -> (r: bool)
        ensures
            r == self.same(*other),
    {
        same_text(&self.executable_sha256, &other.executable_sha256) && same_text(
            &self.designated_requirement_sha256,
            &other.designated_requirement_sha256,
        )
    }
}

/// A line without the carriage return at its end.
pub open spec fn chomped(line: Seq<char>) -> Seq<char> {
    if line.len() > 0 && line.last() == '\r' {
        line.drop_last()
    } else {
        line
    }
}

/// What follows the last line feed.
pub open spec fn unfinished_line(text: Seq<char>) -> Seq<char>
    decreases text.len(),
{
    if text.len() == 0 || text.last() == '\n' {
        Seq::empty()
    } else {
        unfinished_line(text.drop_last()).push(text.last())
    }
}

/// The lines that a line feed ends, without their line ends.
pub open spec fn finished_lines(text: Seq<char>) -> Seq<Seq<char>>
    decreases text.len(),
{
    if text.len() == 0 {
        Seq::empty()
    } else if text.last() == '\n' {
        finished_lines(text.drop_last()).push(chomped(unfinished_line(text.drop_last())))
    } else {
        finished_lines(text.drop_last())
    }
}

/// The lines of a text. A last line that no line feed ends counts if it is not empty.
pub open spec fn text_lines(text: Seq<char>) -> Seq<Seq<char>> {
    if unfinished_line(text).len() == 0 {
        finished_lines(text)
    } else {
        finished_lines(text).push(unfinished_line(text))
    }
}

/// The lines that state a designated requirement.
pub open spec fn designated_lines(lines: Seq<Seq<char>>) -> Seq<Seq<char>>
    decreases lines.len(),
{
    if lines.len() == 0 {
        Seq::empty()
    } else if DESIGNATED@.is_prefix_of(lines.last()) {
        designated_lines(lines.drop_last()).push(lines.last())
    } else {
        designated_lines(lines.drop_last())
    }
}

/// A character that may name a team.
pub open spec fn team_char(c: char) -> bool {
    'A' <= c <= 'Z' || '0' <= c <= '9'
}

/// The one requirement that a helper may be signed under, with its team.
pub open spec fn canonical_requirement(line: Seq<char>) -> bool {
    let prefix = REQUIREMENT_PREFIX@;
    &&& line.len() == prefix.len() + TEAM_CHARS + 1
    &&& prefix.is_prefix_of(line)
    &&& forall|i: int| prefix.len() <= i < prefix.len() + TEAM_CHARS ==> team_char(#[trigger] line[i])
    &&& line.last() == '"'
}

/// The designated requirement that the two streams state: both are text, together they state
/// exactly one, and it is the one that a helper may be signed under.
pub open spec fn stated_requirement(stdout: Seq<u8>, stderr: Seq<u8>) -> Outcome<Seq<char>> {
    let stated = designated_lines(text_lines(decode_utf8(stdout))) + designated_lines(
        text_lines(decode_utf8(stderr)),
    );
    if valid_utf8(stdout) && valid_utf8(stderr) && stated.len() == 1 && canonical_requirement(
        stated[0],
    ) {
        Ok(stated[0])
    } else {
        Err("recovery_signer"@)
    }
}

fn starts_with(line: &Vec<char>, prefix: &str) -> (r: bool)
    ensures
        r == prefix@.is_prefix_of(line@),
{
    let wanted = chars_of(prefix);
    if line.len() < wanted.len() {
        return false;
    }
    let mut i: usize = 0;
    while i < wanted.len()
        invariant
            i <= wanted@.len() <= line@.len(),
            wanted@ == prefix@,
            forall|j: int| 0 <= j < i ==> line@[j] == wanted@[j],
        decreases wanted@.len() - i,
    {
        if line[i] != wanted[i] {
            assert(line@.subrange(0, prefix@.len() as int)[i as int] == line@[i as int]);
            return false;
        }
        i += 1;
    }
    assert(prefix@ =~= line@.subrange(0, prefix@.len() as int));
    true
}

fn chomp(line: Vec<char>) -> (r: Vec<char>)
    ensures
        r@ == chomped(line@),
{
    let mut out = line;
    let n: usize = out.len();
    if n > 0 && out[n - 1] == '\r' {
        out.pop();
    }
    out
}

/// The lines of a text that state a designated requirement.
fn designated_of(text: &str) -> (r: Vec<Vec<char>>)
    ensures
        path::piece_views(r@) == designated_lines(text_lines(text@)),
{
    let chars = chars_of(text);
    let mut stated: Vec<Vec<char>> = Vec::new();
    let mut open: Vec<char> = Vec::new();
    let mut i: usize = 0;
    proof {
        assert(chars@.take(0) =~= Seq::empty());
        assert(path::piece_views(stated@) =~= Seq::empty());
    }
    while i < chars.len()
        invariant
            i <= chars@.len(),
            chars@ == text@,
            open@ == unfinished_line(chars@.take(i as int)),
            path::piece_views(stated@) == designated_lines(finished_lines(chars@.take(i as int))),
        decreases chars@.len() - i,
    {
        let c: char = chars[i];
        let ghost before = chars@.take(i as int);
        let ghost after = chars@.take(i + 1);
        proof {
            assert(after.drop_last() =~= before);
            assert(after.last() == c);
        }
        if c == '\n' {
            let line = chomp(open);
            open = Vec::new();
            let ghost prior = path::piece_views(stated@);
            proof {
                assert(finished_lines(after).drop_last() =~= finished_lines(before));
                assert(finished_lines(after).last() == line@);
            }
            if starts_with(&line, DESIGNATED) {
                let ghost added = line@;
                stated.push(line);
                assert(path::piece_views(stated@) =~= prior.push(added));
            }
        } else {
            open.push(c);
        }
        i += 1;
    }
    assert(chars@.take(chars@.len() as int) =~= text@);
    if open.len() > 0 {
        let ghost prior = path::piece_views(stated@);
        proof {
            assert(text_lines(text@).drop_last() =~= finished_lines(text@));
            assert(text_lines(text@).last() == open@);
        }
        if starts_with(&open, DESIGNATED) {
            let ghost added = open@;
            stated.push(open);
            assert(path::piece_views(stated@) =~= prior.push(added));
        }
    }
    stated
}

fn is_canonical_requirement(line: &Vec<char>) -> (r: bool)
    ensures
        r == canonical_requirement(line@),
{
    let prefix_chars = chars_of(REQUIREMENT_PREFIX);
    let n: usize = prefix_chars.len();
    if line.len() <= n || line.len() - n != TEAM_CHARS + 1 || !starts_with(
        line,
        REQUIREMENT_PREFIX,
    ) || line[line.len() - 1] != '"' {
        return false;
    }
    let mut i: usize = n;
    while i < n + TEAM_CHARS
        invariant
            n <= i <= n + TEAM_CHARS,
            n == REQUIREMENT_PREFIX@.len(),
            line@.len() == n + TEAM_CHARS + 1,
            n + TEAM_CHARS + 1 <= usize::MAX,
            forall|j: int| n <= j < i ==> team_char(#[trigger] line@[j]),
        decreases n + TEAM_CHARS - i,
    {
        let c: char = line[i];
        if !(('A' <= c && c <= 'Z') || ('0' <= c && c <= '9')) {
            assert(!team_char(line@[i as int]));
            return false;
        }
        i += 1;
    }
    true
}

/// The designated requirement that the two streams of a signature query state.
pub fn parse_designated_requirement(stdout: &[u8], stderr: &[u8]) -> (r: Result<
    String,
    LegacyUploadEvidenceError,
>)
    ensures
        match stated_requirement(stdout@, stderr@) {
            Ok(line) => r is Ok && r->Ok_0@ == line,
            Err(category) => r is Err && r->Err_0@ == category,
        },
{
    broadcast use encode_utf8_decode_utf8;

    let (out, err) = match (core::str::from_utf8(stdout), core::str::from_utf8(stderr)) {
        (Ok(out), Ok(err)) => (out, err),
        _ => {
            return Err(failure("recovery_signer"));
        },
    };
    proof {
        assert(decode_utf8(encode_utf8(out@)) == out@);
        assert(decode_utf8(encode_utf8(err@)) == err@);
        assert(out@ == decode_utf8(stdout@));
        assert(err@ == decode_utf8(stderr@));
    }
    let from_out = designated_of(out);
    let from_err = designated_of(err);
    let ghost left = path::piece_views(from_out@);
    let ghost right = path::piece_views(from_err@);
    assert(left.len() == from_out@.len() && right.len() == from_err@.len());
    if from_out.len() == 1 && from_err.len() == 0 {
        assert((left + right)[0] == from_out@[0]@);
        if is_canonical_requirement(&from_out[0]) {
            return Ok(text_of(&from_out[0]));
        }
    } else if from_out.len() == 0 && from_err.len() == 1 {
        assert((left + right)[0] == from_err@[0]@);
        if is_canonical_requirement(&from_err[0]) {
            return Ok(text_of(&from_err[0]));
        }
    }
    Err(failure("recovery_signer"))
}

/// What was found out about an executable.
#[derive(Debug, PartialEq, Eq)]
pub enum ExecutableObservation {
    /// Nothing: this platform knows no designated requirements.
    Unsupported,
    Observed {
        /// The canonical path of the executable, if it has one.
        canonical: Option<String>,
        /// Whether its signature was verified.
        verified: bool,
        /// The two streams of the query for its designated requirement, where that succeeded.
        requirement: Option<(Vec<u8>, Vec<u8>)>,
        /// How reading it went.
        read: SourceRead,
        /// How reading the open file again went.
        held: SourceRead,
        /// How reading the file that has its name now went.
        named: SourceRead,
    },
}

/// The signer that an executable makes: a verified, unchanged file at its canonical path that the
/// running user owns and nobody else may write, signed under the one requirement.
pub open spec fn executable_signer(
    executable: Seq<char>,
    observed: ExecutableObservation,
    euid: u32,
) -> Outcome<(Seq<char>, Seq<char>)> {
    match observed {
        ExecutableObservation::Unsupported => Err("recovery_unsigned"@),
        ExecutableObservation::Observed { canonical, verified, requirement, read, held, named } => {
            if !path::safe_place(executable) || canonical is None || !path::same_place(
                canonical->0@,
                executable,
            ) || !verified || requirement is None {
                Err("recovery_signer"@)
            } else {
                let streams = requirement->0;
                let stated = stated_requirement(streams.0@, streams.1@);
                if stated is Err || sealed::source_refusal(executable, read) is Some {
                    Err("recovery_signer"@)
                } else {
                    let metadata = read->Read_0;
                    let sha256 = digest::sha256_hex(read->Read_1@);
                    if !held.shows(metadata, sha256) || !named.shows(metadata, sha256) {
                        Err("source_changed"@)
                    } else if metadata.uid != euid || metadata.mode & SHARED_WRITE_BITS != 0 {
                        Err("recovery_signer"@)
                    } else {
                        Ok((sha256, digest::sha256_hex(encode_utf8(stated->Ok_0))))
                    }
                }
            }
        },
    }
}

/// A signer was found as it should: the very one, or refused under the very category.
pub open spec fn signed_as(
    r: Result<DeviceRecoverySigner, LegacyUploadEvidenceError>,
    expected: Outcome<(Seq<char>, Seq<char>)>,
) -> bool {
    match (r, expected) {
        (Ok(signer), Ok((executable, requirement))) => signer.executable_sha256@ == executable
            && signer.designated_requirement_sha256@ == requirement,
        (Err(error), Err(category)) => error@ == category,
        _ => false,
    }
}

/// The signer that an executable makes.
pub fn recovery_signer_for_executable(
    executable: &str,
    observed: &ExecutableObservation,
    euid: u32,
) -> (r: Result<DeviceRecoverySigner, LegacyUploadEvidenceError>)
    ensures
        signed_as(r, executable_signer(executable@, *observed, euid)),
{
    match observed {
        ExecutableObservation::Unsupported => Err(failure("recovery_unsigned")),
        ExecutableObservation::Observed { canonical, verified, requirement, read, held, named } => {
            let at_home: bool = match canonical {
                Some(canonical) => same_path(canonical, executable),
                None => false,
            };
            if !safe_absolute_path(executable) || !at_home || !*verified {
                return Err(failure("recovery_signer"));
            }
            let designated = match requirement {
                None => {
                    return Err(failure("recovery_signer"));
                },
                Some((stdout, stderr)) => match parse_designated_requirement(stdout, stderr) {
                    Err(error) => {
                        return Err(error);
                    },
                    Ok(designated) => designated,
                },
            };
            let file = match HeldGenerationSource::open(executable, read) {
                Err(_) => {
                    return Err(failure("recovery_signer"));
                },
                Ok(file) => file,
            };
            match file.revalidate(held, named) {
                Err(error) => {
                    return Err(error);
                },
                Ok(()) => {},
            }
            if file.metadata.uid != euid || file.metadata.mode & SHARED_WRITE_BITS != 0 {
                return Err(failure("recovery_signer"));
            }
            Ok(
                DeviceRecoverySigner {
                    executable_sha256: file.sha256,
                    designated_requirement_sha256: sha256_bytes(designated.as_str().as_bytes()),
                },
            )
        },
    }
}

/// The signer that the running program makes; refused as `recovery_signer` where the program does
/// not know its own path.
pub open spec fn running_signer(
    executable: Option<Seq<char>>,
    observed: ExecutableObservation,
    euid: u32,
) -> Outcome<(Seq<char>, Seq<char>)> {
    if observed is Unsupported {
        Err("recovery_unsigned"@)
    } else {
        match executable {
            None => Err("recovery_signer"@),
            Some(path) => executable_signer(path, observed, euid),
        }
    }
}

/// The signer that the running program makes.
pub fn current_recovery_signer(
    executable: &Option<String>,
    observed: &ExecutableObservation,
    euid: u32,
) -> (r: Result<DeviceRecoverySigner, LegacyUploadEvidenceError>)
    ensures
        signed_as(
            r,
            running_signer(crate::manifest::optional_text(*executable), *observed, euid),
        ),
{
    match observed {
        ExecutableObservation::Unsupported => Err(failure("recovery_unsigned")),
        _ => match executable {
            None => Err(failure("recovery_signer")),
            Some(path) => recovery_signer_for_executable(path, observed, euid),
        },
    }
}

/// What the sealed policy and provenance of a Service bundle say of its helper.
#[derive(Debug, PartialEq, Eq)]
pub struct ServiceBundle {
    pub helper_relative_path: Option<String>,
    pub helper_designated_requirement: Option<String>,
    pub helper_sha256: String,
}

/// The path of a bundle's helper, where its policy names one.
pub open spec fn helper_place(bundle_path: Seq<char>, bundle: ServiceBundle) -> Option<Seq<char>> {
    match bundle.helper_relative_path {
        None => None,
        Some(relative) => Some(path::joined(bundle_path, relative@)),
    }
}

/// The path of a bundle's helper, where its policy names one.
pub fn prior_helper_path(bundle_path: &str, bundle: &ServiceBundle) -> (r: Option<String>)
    ensures
        match r {
            Some(path) => helper_place(bundle_path@, *bundle) == Some(path@),
            None => helper_place(bundle_path@, *bundle) is None,
        },
{
    match &bundle.helper_relative_path {
        None => None,
        Some(relative) => Some(join_path(bundle_path, relative)),
    }
}

/// The signer that a sealed bundle vouches for: its helper is the very program that the receipt
/// names, and its policy and provenance say so too.
pub open spec fn bundle_signer(
    bundle_path: Seq<char>,
    bundle: Option<ServiceBundle>,
    observed: ExecutableObservation,
    euid: u32,
    expected: DeviceRecoverySigner,
) -> Outcome<(Seq<char>, Seq<char>)> {
    if bundle is None || helper_place(bundle_path, bundle->0) is None {
        Err("recovery_signer"@)
    } else {
        let signer = executable_signer(helper_place(bundle_path, bundle->0)->0, observed, euid);
        match signer {
            Err(category) => Err(category),
            Ok((executable, requirement)) => match bundle->0.helper_designated_requirement {
                None => Err("recovery_signer"@),
                Some(stated) => if executable == expected.executable_sha256@ && requirement
                    == expected.designated_requirement_sha256@ && bundle->0.helper_sha256@
                    == expected.executable_sha256@ && digest::sha256_hex(encode_utf8(stated@))
                    == expected.designated_requirement_sha256@ {
                    signer
                } else {
                    Err("recovery_signer_mismatch"@)
                },
            },
        }
    }
}

/// The signer that a sealed bundle vouches for.
pub fn prior_recovery_signer(
    bundle_path: &str,
    bundle: &Option<ServiceBundle>,
    observed: &ExecutableObservation,
    euid: u32,
    expected: &DeviceRecoverySigner,
) -> (r: Result<DeviceRecoverySigner, LegacyUploadEvidenceError>)
    ensures
        signed_as(r, bundle_signer(bundle_path@, *bundle, *observed, euid, *expected)),
{
    let bundle = match bundle {
        None => {
            return Err(failure("recovery_signer"));
        },
        Some(bundle) => bundle,
    };
    let helper = match prior_helper_path(bundle_path, bundle) {
        None => {
            return Err(failure("recovery_signer"));
        },
        Some(helper) => helper,
    };
    let signer = match recovery_signer_for_executable(&helper, observed, euid) {
        Err(error) => {
            return Err(error);
        },
        Ok(signer) => signer,
    };
    match &bundle.helper_designated_requirement {
        None => Err(failure("recovery_signer")),
        Some(stated) => if signer.is_same(expected) && same_text(
            &bundle.helper_sha256,
            &expected.executable_sha256,
        ) && same_text(
            &sha256_bytes(stated.as_str().as_bytes()),
            &expected.designated_requirement_sha256,
        ) {
            Ok(signer)
        } else {
            Err(failure("recovery_signer_mismatch"))
        },
    }
}

/// Whether a sealed bundle still vouches for the signer.
pub fn revalidate_prior_recovery_service_bundle(
    bundle_path: &str,
    bundle: &Option<ServiceBundle>,
    observed: &ExecutableObservation,
    euid: u32,
    expected_signer: &DeviceRecoverySigner,
) -> (r: Result<(), LegacyUploadEvidenceError>)
    ensures
        match bundle_signer(bundle_path@, *bundle, *observed, euid, *expected_signer) {
            Ok(_) => r is Ok,
            Err(category) => r is Err && r->Err_0@ == category,
        },
{
    match prior_recovery_signer(bundle_path, bundle, observed, euid, expected_signer) {
        Err(error) => Err(error),
        Ok(_) => Ok(()),
    }
}

proof fn lines_behind_a_break(before: Seq<char>, after: Seq<char>)
    ensures
        unfinished_line(before + seq!['\n'] + after) == unfinished_line(after),
        finished_lines(before + seq!['\n'] + after) == finished_lines(before + seq!['\n'])
            + finished_lines(after),
    decreases after.len(),
{
    let text = before + seq!['\n'] + after;
    if after.len() == 0 {
        assert(text =~= before + seq!['\n']);
        assert(finished_lines(text) + finished_lines(after) =~= finished_lines(text));
    } else {
        let front = after.drop_last();
        lines_behind_a_break(before, front);
        assert(text.drop_last() =~= before + seq!['\n'] + front);
        assert(text.last() == after.last());
        assert(finished_lines(text) =~= finished_lines(before + seq!['\n']) + finished_lines(
            after,
        ));
    }
}

proof fn one_line(line: Seq<char>)
    requires
        !line.contains('\n'),
    ensures
        unfinished_line(line) == line,
        finished_lines(line) == Seq::<Seq<char>>::empty(),
    decreases line.len(),
{
    if line.len() > 0 {
        let front = line.drop_last();
        assert(!front.contains('\n')) by {
            if front.contains('\n') {
                let k = choose|k: int| 0 <= k < front.len() && front[k] == '\n';
                assert(line[k] == '\n');
            }
        }
        one_line(front);
        assert(line[line.len() - 1] == line.last());
        assert(front.push(line.last()) =~= line);
    } else {
        assert(line =~= Seq::empty());
    }
}

/// Lines are what line breaks end: a text is one line up to its first break, a break ends a line
/// whether or not a carriage return stands before it, the lines of what follows a break come after
/// those of what precedes it, and a break at the end begins no further line.
pub proof fn breaks_end_lines(line: Seq<char>, before: Seq<char>, after: Seq<char>)
    requires
        !line.contains('\n'),
    ensures
        text_lines(Seq::empty()) == Seq::<Seq<char>>::empty(),
        line.len() > 0 ==> text_lines(line) == seq![line],
        line.len() > 0 && line.last() != '\r' ==> text_lines(line + seq!['\n']) == seq![line],
        text_lines(line + seq!['\r'] + seq!['\n']) == seq![line],
        text_lines(before + seq!['\n'] + after) == text_lines(before + seq!['\n']) + text_lines(
            after,
        ),
{
    let none = Seq::<Seq<char>>::empty();
    one_line(line);
    assert(none.push(line) =~= seq![line]);
    let ended = line + seq!['\n'];
    assert(ended.drop_last() =~= line);
    let returned = line + seq!['\r'];
    assert(!returned.contains('\n')) by {
        if returned.contains('\n') {
            let k = choose|k: int| 0 <= k < returned.len() && returned[k] == '\n';
            if k < line.len() {
                assert(line[k] == '\n');
            }
        }
    }
    one_line(returned);
    assert((returned + seq!['\n']).drop_last() =~= returned);
    assert(returned.drop_last() =~= line);
    lines_behind_a_break(before, after);
    assert((before + seq!['\n']).last() == '\n');
    assert(text_lines(before + seq!['\n'] + after) =~= text_lines(before + seq!['\n'])
        + text_lines(after));
}

/// The lines that designate a requirement are those that begin with the words for it, in their
/// order.
pub proof fn designating_lines_begin_with_the_words(lines: Seq<Seq<char>>)
    ensures
        designated_lines(lines) == lines.filter(
            |line: Seq<char>| "designated => "@.is_prefix_of(line),
        ),
    decreases lines.len(),
{
    reveal(Seq::filter);
    if lines.len() > 0 {
        designating_lines_begin_with_the_words(lines.drop_last());
    } else {
        assert(lines =~= Seq::empty());
    }
}

/// A requirement is canonical exactly if it is the expected text around a team of ten capital
/// letters and digits.
pub proof fn canonical_requirements_name_a_team_of_ten(line: Seq<char>, team: Seq<char>)
    ensures
        canonical_requirement(
            "designated => anchor apple generic and identifier \"com.icloudpd-optimizer.helper\" and certificate leaf[subject.OU] = \""@
                + team + seq!['"'],
        ) <==> team.len() == 10 && forall|i: int|
            0 <= i < team.len() ==> 65 <= (#[trigger] team[i]) as int <= 90 || 48 <= team[i] as int
                <= 57,
        canonical_requirement(line) ==> {
            let head = "designated => anchor apple generic and identifier \"com.icloudpd-optimizer.helper\" and certificate leaf[subject.OU] = \""@;
            line == head + line.subrange(head.len() as int, head.len() as int + 10) + seq!['"']
        },
{
    let head = REQUIREMENT_PREFIX@;
    let whole = head + team + seq!['"'];
    assert(head.is_prefix_of(whole)) by {
        assert(whole.subrange(0, head.len() as int) =~= head);
    }
    if canonical_requirement(whole) {
        assert forall|i: int| 0 <= i < team.len() implies 65 <= (#[trigger] team[i]) as int <= 90
            || 48 <= team[i] as int <= 57 by {
            assert(whole[head.len() + i] == team[i]);
        }
    }
    if team.len() == 10 && forall|i: int|
        0 <= i < team.len() ==> 65 <= (#[trigger] team[i]) as int <= 90 || 48 <= team[i] as int
            <= 57 {
        assert forall|i: int| head.len() <= i < head.len() + TEAM_CHARS implies team_char(
            #[trigger] whole[i],
        ) by {
            assert(whole[i] == team[i - head.len()]);
        }
    }
    if canonical_requirement(line) {
        let named = line.subrange(head.len() as int, head.len() as int + 10);
        assert(line =~= head + named + seq!['"']);
    }
}

/// A requirement is taken exactly if both streams are text and together hold one line that
/// designates a requirement, which is canonical; on which stream it stands makes no difference.
pub proof fn one_requirement_is_stated(stdout: Seq<u8>, stderr: Seq<u8>)
    ensures
        stated_requirement(stdout, stderr) is Ok <==> {
            let out = designated_lines(text_lines(decode_utf8(stdout)));
            let err = designated_lines(text_lines(decode_utf8(stderr)));
            &&& valid_utf8(stdout)
            &&& valid_utf8(stderr)
            &&& {
                ||| out.len() == 1 && err.len() == 0 && canonical_requirement(out[0])
                ||| out.len() == 0 && err.len() == 1 && canonical_requirement(err[0])
            }
        },
        stated_requirement(stdout, stderr) is Ok ==> stated_requirement(stdout, stderr)
            == stated_requirement(stderr, stdout),
{
    let out = designated_lines(text_lines(decode_utf8(stdout)));
    let err = designated_lines(text_lines(decode_utf8(stderr)));
    assert((out + err).len() == out.len() + err.len());
    if out.len() == 1 {
        assert((out + err)[0] == out[0]);
        if err.len() == 0 {
            assert((err + out)[0] == out[0]);
        }
    } else if out.len() == 0 && err.len() == 1 {
        assert((out + err)[0] == err[0]);
        assert((err + out)[0] == err[0]);
    }
}

/// An executable vouches for what it signs exactly if it lies at its own canonical and safe place,
/// its signature was verified and states a requirement, and it is a sound file of the running user
/// that nobody else may write and that did not change while it was looked at. It is known by the
/// digests of its content and of its requirement.
pub proof fn verified_executables_sign(
    executable: Seq<char>,
    canonical: Option<String>,
    verified: bool,
    requirement: Option<(Vec<u8>, Vec<u8>)>,
    metadata: sealed::EvidenceMetadata,
    content: Vec<u8>,
    held: SourceRead,
    named: SourceRead,
    euid: u32,
)
    ensures
        ({
            let observed = ExecutableObservation::Observed {
                canonical,
                verified,
                requirement,
                read: SourceRead::Read(metadata, content),
                held,
                named,
            };
            let streams = requirement->0;
            let stated = stated_requirement(streams.0@, streams.1@);
            let sha256 = digest::sha256_hex(content@);
            &&& executable_signer(executable, observed, euid) is Ok <==> {
                &&& path::safe_place(executable)
                &&& canonical is Some
                &&& path::same_place(canonical->0@, executable)
                &&& verified
                &&& requirement is Some
                &&& stated is Ok
                &&& sealed::source_refusal(
                    executable,
                    SourceRead::Read(metadata, content),
                ) is None
                &&& held.shows(metadata, sha256)
                &&& named.shows(metadata, sha256)
                &&& metadata.uid == euid
                &&& metadata.mode & 18 == 0
            }
            &&& executable_signer(executable, observed, euid) is Ok ==> executable_signer(
                executable,
                observed,
                euid,
            )->Ok_0 == (sha256, digest::sha256_hex(encode_utf8(stated->Ok_0)))
        }),
        executable_signer(executable, ExecutableObservation::Unsupported, euid) is Err,
{
}

/// A running executable signs as it does wherever it is looked at; without a path, or without a way
/// to look, there is no signer.
pub proof fn running_executables_sign_as_any_other(
    executable: Seq<char>,
    observed: ExecutableObservation,
    euid: u32,
)
    ensures
        running_signer(Some(executable), observed, euid) is Ok <==> executable_signer(
            executable,
            observed,
            euid,
        ) is Ok,
        running_signer(Some(executable), observed, euid) is Ok ==> running_signer(
            Some(executable),
            observed,
            euid,
        ) == executable_signer(executable, observed, euid),
        running_signer(None, observed, euid) is Err,
{
}

/// A service bundle vouches for a signer exactly if its policy names a helper and its requirement,
/// the helper lies in the bundle where the policy says, signs as expected, and the policy states the
/// same digest and the same requirement.
pub proof fn bundles_vouch_for_their_helper(
    bundle_path: Seq<char>,
    bundle: ServiceBundle,
    observed: ExecutableObservation,
    euid: u32,
    expected: DeviceRecoverySigner,
)
    ensures
        bundle_signer(bundle_path, Some(bundle), observed, euid, expected) is Ok <==> {
            &&& bundle.helper_relative_path is Some
            &&& bundle.helper_designated_requirement is Some
            &&& executable_signer(
                path::joined(bundle_path, bundle.helper_relative_path->0@),
                observed,
                euid,
            ) == Ok::<(Seq<char>, Seq<char>), Seq<char>>(
                (expected.executable_sha256@, expected.designated_requirement_sha256@),
            )
            &&& bundle.helper_sha256@ == expected.executable_sha256@
            &&& digest::sha256_hex(encode_utf8(bundle.helper_designated_requirement->0@))
                == expected.designated_requirement_sha256@
        },
        bundle_signer(bundle_path, Some(bundle), observed, euid, expected) is Ok ==> bundle_signer(
            bundle_path,
            Some(bundle),
            observed,
            euid,
            expected,
        )->Ok_0 == (expected.executable_sha256@, expected.designated_requirement_sha256@),
        bundle_signer(bundle_path, None, observed, euid, expected) is Err,
{
}

/// Two signers are the same exactly if both their digests are.
pub proof fn signers_are_known_by_both_digests(a: DeviceRecoverySigner, b: DeviceRecoverySigner)
    ensures
        a.same(b) <==> a.executable_sha256@ == b.executable_sha256@
            && a.designated_requirement_sha256@ == b.designated_requirement_sha256@,
        a.same(b) == b.same(a),
{
}

/// What keeps an executable from signing is told by its name.
pub proof fn faults_of_a_signer_are_named(
    executable: Seq<char>,
    canonical: Option<String>,
    verified: bool,
    requirement: Option<(Vec<u8>, Vec<u8>)>,
    read: SourceRead,
    held: SourceRead,
    named: SourceRead,
    euid: u32,
)
    ensures
        ({
            let observed = ExecutableObservation::Observed { canonical, verified, requirement, read, held, named };
            let streams = requirement->0;
            let stated = stated_requirement(streams.0@, streams.1@);
            let metadata = read->Read_0;
            let sha256 = digest::sha256_hex(read->Read_1@);
            let verifiable = path::safe_place(executable) && canonical is Some
                && path::same_place(canonical->0@, executable) && verified && requirement is Some;
            let sound = stated is Ok && sealed::source_refusal(executable, read) is None;
            let unchanged = held.shows(metadata, sha256) && named.shows(metadata, sha256);
            let private = metadata.uid == euid && metadata.mode & 18 == 0;
            let told = executable_signer(executable, observed, euid);
            &&& !verifiable ==> told == Err::<(Seq<char>, Seq<char>), Seq<char>>("recovery_signer"@)
            &&& verifiable && !sound
                ==> told == Err::<(Seq<char>, Seq<char>), Seq<char>>("recovery_signer"@)
            &&& verifiable && sound && !unchanged
                ==> told == Err::<(Seq<char>, Seq<char>), Seq<char>>("source_changed"@)
            &&& verifiable && sound && unchanged && !private
                ==> told == Err::<(Seq<char>, Seq<char>), Seq<char>>("recovery_signer"@)
        }),
{
}

/// What keeps a bundle or the running executable from vouching is told by its name.
pub proof fn faults_of_a_bundle_are_named(
    bundle_path: Seq<char>,
    bundle: ServiceBundle,
    executable: Seq<char>,
    observed: ExecutableObservation,
    euid: u32,
    expected: DeviceRecoverySigner,
)
    ensures
        executable_signer(executable, ExecutableObservation::Unsupported, euid) == Err::<
            (Seq<char>, Seq<char>),
            Seq<char>,
        >("recovery_unsigned"@),
        running_signer(Some(executable), ExecutableObservation::Unsupported, euid) == Err::<
            (Seq<char>, Seq<char>),
            Seq<char>,
        >("recovery_unsigned"@),
        running_signer(None, ExecutableObservation::Unsupported, euid) == Err::<
            (Seq<char>, Seq<char>),
            Seq<char>,
        >("recovery_unsigned"@),
        !(observed is Unsupported) ==> running_signer(None, observed, euid) == Err::<
            (Seq<char>, Seq<char>),
            Seq<char>,
        >("recovery_signer"@),
        running_signer(Some(executable), observed, euid) == executable_signer(
            executable,
            observed,
            euid,
        ),
        bundle_signer(bundle_path, None, observed, euid, expected) == Err::<
            (Seq<char>, Seq<char>),
            Seq<char>,
        >("recovery_signer"@),
        ({
            let told = bundle_signer(bundle_path, Some(bundle), observed, euid, expected);
            let helper = executable_signer(
                path::joined(bundle_path, bundle.helper_relative_path->0@),
                observed,
                euid,
            );
            &&& bundle.helper_relative_path is None ==> told == Err::<
                (Seq<char>, Seq<char>),
                Seq<char>,
            >("recovery_signer"@)
            &&& bundle.helper_relative_path is Some && helper is Err ==> told == helper
            &&& bundle.helper_relative_path is Some && helper is Ok
                && bundle.helper_designated_requirement is None ==> told == Err::<
                (Seq<char>, Seq<char>),
                Seq<char>,
            >("recovery_signer"@)
            &&& bundle.helper_relative_path is Some && helper is Ok
                && bundle.helper_designated_requirement is Some && told is Err ==> told->Err_0
                == "recovery_signer_mismatch"@
        }),
        forall|stdout: Seq<u8>, stderr: Seq<u8>|
            (#[trigger] stated_requirement(stdout, stderr)) is Err ==> stated_requirement(
                stdout,
                stderr,
            )->Err_0 == "recovery_signer"@,
{
}

} // verus!
