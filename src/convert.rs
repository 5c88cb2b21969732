//! One conversion: naming the artifact, planning the encoder's run, and
//! reading the run's outcome.
use crate::errors::{ApiError, ValidationKind};
use crate::ingest::UploadedImage;
use crate::options::{cwebp_args, string_views, tool_args, ConvertParams};
use vstd::prelude::*;

verus! {

/// The part of a filename before its first `.` (all of it when it has none).
pub open spec fn stem(s: Seq<char>) -> Seq<char>
    decreases s.len(),
{
    if s.len() == 0 || s[0] == '.' {
        Seq::empty()
    } else {
        seq![s[0]] + stem(s.drop_first())
    }
}

/// The name of the artifact made from an upload named `filename`.
pub open spec fn artifact_name_of(filename: Seq<char>) -> Seq<char> {
    stem(filename) + ".webp"@
}

/// `c` separates the components of a path.
pub open spec fn is_separator(c: char) -> bool {
    c == '/' || c == '\\'
}

/// `id` is a bare filename: no separator in it.
pub open spec fn is_bare_name(id: Seq<char>) -> bool {
    forall|i: int| 0 <= i < id.len() ==> !is_separator(#[trigger] id[i])
}

/// The path of the artifact `name` inside the store directory `dir`.
pub open spec fn store_path(dir: Seq<char>, name: Seq<char>) -> Seq<char> {
    dir + "/"@ + name
}

proof fn lemma_stem_prefix(s: Seq<char>, i: int)
    requires
        0 <= i <= s.len(),
        forall|j: int| 0 <= j < i ==> s[j] != '.',
        i == s.len() || s[i] == '.',
    ensures
        stem(s) == s.subrange(0, i),
    decreases i,
{
    if i == 0 {
        assert(s.subrange(0, 0) =~= Seq::<char>::empty());
    } else {
        let t = s.drop_first();
        assert forall|j: int| 0 <= j < i - 1 implies t[j] != '.' by {
            assert(t[j] == s[j + 1]);
        }
        lemma_stem_prefix(t, i - 1);
        assert(s.subrange(0, i) =~= seq![s[0]] + t.subrange(0, i - 1));
    }
}

proof fn lemma_stem_is_prefix(s: Seq<char>)
    ensures
        stem(s).len() <= s.len(),
        forall|j: int| 0 <= j < stem(s).len() ==> stem(s)[j] == s[j],
    decreases s.len(),
{
    if s.len() > 0 && s[0] != '.' {
        let t = s.drop_first();
        lemma_stem_is_prefix(t);
        assert forall|j: int| 0 <= j < stem(s).len() implies stem(s)[j] == s[j] by {
            if j > 0 {
                assert(stem(s)[j] == stem(t)[j - 1]);
                assert(t[j - 1] == s[j]);
            }
        }
    }
}

/// An upload whose filename has no separator gets an artifact name with
/// none either.
pub proof fn lemma_bare_artifact_name(filename: Seq<char>)
    requires
        is_bare_name(filename),
    ensures
        is_bare_name(artifact_name_of(filename)),
{
    lemma_stem_is_prefix(filename);
    reveal_strlit(".webp");
    let a = artifact_name_of(filename);
    assert forall|i: int| 0 <= i < a.len() implies !is_separator(#[trigger] a[i]) by {
        if i < stem(filename).len() {
            assert(a[i] == filename[i]);
        }
    }
}

/// The name of the artifact made from an upload named `filename`: the part
/// before the first `.`, then `.webp`. Two uploads with the same such part
/// share one artifact name, and the later overwrites the earlier.
pub fn artifact_name(filename: &str) -> (r: String)
    ensures
        r@ == artifact_name_of(filename@),
{
    let n = filename.unicode_len();
    let mut i: usize = 0;
    while i < n && filename.get_char(i) != '.'
        invariant
            n == filename@.len(),
            i <= n,
            forall|j: int| 0 <= j < i ==> filename@[j] != '.',
        decreases n - i,
    {
        i = i + 1;
    }
    proof {
        lemma_stem_prefix(filename@, i as int);
    }
    let head = String::from_str(filename.substring_char(0, i));
    head.concat(".webp")
}

/// What the encoder is to be run with for one upload.
#[derive(Clone, Debug)]
pub struct ConversionPlan {
    /// The artifact's name, which is also its identifier for retrieval.
    pub output_filename: String,
    /// Where the artifact is written.
    pub output_path: String,
    /// The encoder's argument list.
    pub args: Vec<String>,
}

/// Plans the conversion of `upload`, whose bytes wait at `input_path`, into
/// the store directory `store_dir`. An upload whose artifact name would not
/// be a bare filename (it would land outside the store) is refused with
/// `InvalidIdentifier`.
pub fn plan_conversion(
    upload: &UploadedImage,
    params: &ConvertParams,
    store_dir: &str,
    input_path: &str,
) -> (r: Result<ConversionPlan, ApiError>)
    ensures
        r.is_ok() == is_bare_name(artifact_name_of(upload.filename@)),
        r.is_err() ==> r matches Err(ApiError::Validation(ValidationKind::InvalidIdentifier)),
        r matches Ok(p) ==> {
            &&& p.output_filename@ == artifact_name_of(upload.filename@)
            &&& p.output_path@ == store_path(store_dir@, p.output_filename@)
            &&& string_views(p.args@) == tool_args(
                params.conversion_spec(),
                input_path@,
                p.output_path@,
            )
        },
{
    let output_filename = artifact_name(upload.filename.as_str());
    if !bare_name(output_filename.as_str()) {
        return Err(ApiError::Validation(ValidationKind::InvalidIdentifier));
    }
    let output_path = String::from_str(store_dir).concat("/").concat(output_filename.as_str());
    let options = params.conversion_options();
    let args = cwebp_args(&options, input_path, output_path.as_str());
    Ok(ConversionPlan { output_filename, output_path, args })
}

/// Whether `id` is a bare filename.
pub fn bare_name(id: &str) -> (r: bool)
    ensures
        r == is_bare_name(id@),
{
    let n = id.unicode_len();
    let mut i: usize = 0;
    while i < n
        invariant
            n == id@.len(),
            i <= n,
            forall|j: int| 0 <= j < i ==> !is_separator(#[trigger] id@[j]),
        decreases n - i,
    {
        let c = id.get_char(i);
        if c == '/' || c == '\\' {
            return false;
        }
        i = i + 1;
    }
    true
}

/// How a run of the encoder ended.
#[derive(Clone, Debug)]
pub enum ToolRun {
    /// The encoder could not be started.
    Unavailable,
    /// The encoder ran; whether its exit status was success, and what it
    /// wrote to its error output.
    Exited { success: bool, stderr: String },
}

/// The conversion's result from the encoder's run: a non-zero exit is
/// `ToolFailed` with the error output, a failed start `ToolUnavailable`.
pub fn tool_outcome(run: ToolRun) -> (r: Result<(), ApiError>)
    ensures
        run matches ToolRun::Unavailable ==> r matches Err(ApiError::ToolUnavailable),
        run matches ToolRun::Exited { success, stderr } ==> {
            &&& success ==> r is Ok
            &&& !success ==> (r matches Err(ApiError::ToolFailed(m)) && m@ == stderr@)
        },
{
    match run {
        ToolRun::Unavailable => Err(ApiError::ToolUnavailable),
        ToolRun::Exited { success, stderr } => if success {
            Ok(())
        } else {
            Err(ApiError::ToolFailed(stderr))
        },
    }
}

} // verus!
