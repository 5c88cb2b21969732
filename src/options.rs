//! Conversion options, their defaults, and the encoder's argument list.
use crate::text::{decimal_string, digits, digits_value, lemma_digits_value};
use vstd::prelude::*;

verus! {

/// The encoder's settings for one conversion.
#[derive(Clone, Debug)]
pub struct ConversionOptions {
    pub lossless: bool,
    pub quality: u8,
    pub near_lossless: u8,
    pub compression_level: u8,
    pub preset: Option<String>,
    pub method: u8,
}

/// The options as a caller submits them: the encoder's settings and the
/// requested response representation (`"webp"` for a link, `"base64"` for
/// an embedded payload).
#[derive(Clone, Debug)]
pub struct ConvertParams {
    pub lossless: bool,
    pub quality: u8,
    pub near_lossless: u8,
    pub compression_level: u8,
    pub preset: Option<String>,
    pub method: u8,
    pub response_type: String,
}

/// How a successful conversion is answered.
#[derive(Clone, Copy, Debug, PartialEq, Eq, Structural)]
pub enum ResponseKind {
    /// A retrieval path and URL; the artifact stays in the store.
    Link,
    /// The artifact's bytes, base64-encoded, inline.
    Embedded,
}

pub fn default_lossless() -> (r: bool)
    ensures
        r == false,
{
    false
}

pub fn default_quality() -> (r: u8)
    ensures
        r == 80,
{
    80
}

pub fn default_near_lossless() -> (r: u8)
    ensures
        r == 100,
{
    100
}

pub fn default_compression_level() -> (r: u8)
    ensures
        r == 6,
{
    6
}

pub fn default_method() -> (r: u8)
    ensures
        r == 4,
{
    4
}

pub fn default_response_type() -> (r: String)
    ensures
        r@ == "webp"@,
{
    String::from_str("webp")
}

/// The defaults: quality 80, near-lossless 100, compression level 6,
/// method 4, lossy, no preset.
pub open spec fn is_default_options(o: ConversionOptions) -> bool {
    &&& !o.lossless
    &&& o.quality == 80
    &&& o.near_lossless == 100
    &&& o.compression_level == 6
    &&& o.preset.is_none()
    &&& o.method == 4
}

impl Default for ConversionOptions {
    fn default() -> (r: Self)
        ensures
            is_default_options(r),
    {
        ConversionOptions {
            lossless: default_lossless(),
            quality: default_quality(),
            near_lossless: default_near_lossless(),
            compression_level: default_compression_level(),
            preset: None,
            method: default_method(),
        }
    }
}

impl Default for ConvertParams {
    fn default() -> (r: Self)
        ensures
            is_default_options(r.conversion_spec()),
            r.response_type@ == "webp"@,
    {
        ConvertParams {
            lossless: default_lossless(),
            quality: default_quality(),
            near_lossless: default_near_lossless(),
            compression_level: default_compression_level(),
            preset: None,
            method: default_method(),
            response_type: default_response_type(),
        }
    }
}

/// The lower-case form of a string, as Unicode defines it.
pub uninterp spec fn lower_of(s: Seq<char>) -> Seq<char>;

/// Relies on `str::to_lowercase`: the result depends on the characters alone.
#[verifier::external_body]
fn lowercase(s: &str) -> (r: String)
    ensures
        r@ == lower_of(s@),
{
    s.to_lowercase()
}

/// The representation named by an already lower-cased response type:
/// `"base64"` is embedded, anything else is a link.
pub open spec fn kind_of_lowered(lowered: Seq<char>) -> ResponseKind {
    if lowered == "base64"@ {
        ResponseKind::Embedded
    } else {
        ResponseKind::Link
    }
}

/// The representation named by a lower-cased response type.
pub fn response_kind_of_lowered(lowered: &str) -> (r: ResponseKind)
    ensures
        r == kind_of_lowered(lowered@),
{
    let l = String::from_str(lowered);
    let embedded = String::from_str("base64");
    if l == embedded {
        ResponseKind::Embedded
    } else {
        ResponseKind::Link
    }
}

impl ConvertParams {
    /// The encoder settings held in these parameters.
    pub open spec fn conversion_spec(self) -> ConversionOptions {
        ConversionOptions {
            lossless: self.lossless,
            quality: self.quality,
            near_lossless: self.near_lossless,
            compression_level: self.compression_level,
            preset: self.preset,
            method: self.method,
        }
    }

    /// The encoder settings held in these parameters.
    pub fn conversion_options(&self) -> (r: ConversionOptions)
        ensures
            r == self.conversion_spec(),
    {
        let preset = match &self.preset {
            Some(p) => Some(p.clone()),
            None => None,
        };
        ConversionOptions {
            lossless: self.lossless,
            quality: self.quality,
            near_lossless: self.near_lossless,
            compression_level: self.compression_level,
            preset,
            method: self.method,
        }
    }

    /// The requested representation; the type is matched without regard
    /// to case.
    pub fn response_kind(&self) -> (r: ResponseKind)
        ensures
            r == kind_of_lowered(lower_of(self.response_type@)),
    {
        let lowered = lowercase(self.response_type.as_str());
        response_kind_of_lowered(lowered.as_str())
    }
}

/// The encoder's arguments, in order: the lossless flag when asked for;
/// quality, near-lossless level and compression level; the preset when
/// there is one; the method; then the input path, `-o` and the output path.
pub open spec fn tool_args(o: ConversionOptions, input: Seq<char>, output: Seq<char>) -> Seq<Seq<char>> {
    (if o.lossless { seq!["-lossless"@] } else { Seq::empty() })
        + seq![
            "-q"@,
            digits(o.quality as nat, 10),
            "-near_lossless"@,
            digits(o.near_lossless as nat, 10),
            "-z"@,
            digits(o.compression_level as nat, 10),
        ]
        + (match o.preset {
            Some(p) => seq!["-preset"@, p@],
            None => Seq::empty(),
        })
        + seq!["-m"@, digits(o.method as nat, 10), input, "-o"@, output]
}

/// The views of a list of strings.
pub open spec fn string_views(v: Seq<String>) -> Seq<Seq<char>> {
    v.map_values(|s: String| s@)
}

/// Appends one string to an argument list.
fn push_arg(args: &mut Vec<String>, s: String)
    ensures
        string_views(final(args)@) == string_views(old(args)@).push(s@),
{
    args.push(s);
    assert(string_views(args@) =~= string_views(old(args)@).push(s@));
}

/// The argument list with which the encoder is run on `input_path`,
/// writing `output_path`.
pub fn cwebp_args(options: &ConversionOptions, input_path: &str, output_path: &str) -> (r: Vec<
    String,
>)
    ensures
        string_views(r@) == tool_args(*options, input_path@, output_path@),
{
    let mut args: Vec<String> = Vec::new();
    assert(string_views(args@) =~= Seq::empty());
    if options.lossless {
        push_arg(&mut args, String::from_str("-lossless"));
    }
    let ghost head = string_views(args@);
    push_arg(&mut args, String::from_str("-q"));
    push_arg(&mut args, decimal_string(options.quality as u64));
    push_arg(&mut args, String::from_str("-near_lossless"));
    push_arg(&mut args, decimal_string(options.near_lossless as u64));
    push_arg(&mut args, String::from_str("-z"));
    push_arg(&mut args, decimal_string(options.compression_level as u64));
    let ghost middle = string_views(args@);
    match &options.preset {
        Some(p) => {
            push_arg(&mut args, String::from_str("-preset"));
            push_arg(&mut args, p.clone());
        },
        None => {},
    }
    let ghost with_preset = string_views(args@);
    push_arg(&mut args, String::from_str("-m"));
    push_arg(&mut args, decimal_string(options.method as u64));
    push_arg(&mut args, String::from_str(input_path));
    push_arg(&mut args, String::from_str("-o"));
    push_arg(&mut args, String::from_str(output_path));
    assert(string_views(args@) =~= tool_args(*options, input_path@, output_path@));
    args
}

/// Each numeric setting in the argument list reads back as exactly the
/// value that was asked for: quality, compression level and method stand,
/// in decimal, right after their flags, at fixed places counted from the
/// lossless flag and from the end of the list.
pub proof fn lemma_args_carry_settings(o: ConversionOptions, input: Seq<char>, output: Seq<char>)
    requires
        o.quality <= 100,
        o.compression_level <= 9,
        o.method <= 6,
    ensures
        ({
            let a = tool_args(o, input, output);
            let k: int = if o.lossless { 1 } else { 0 };
            &&& a[k] == "-q"@
            &&& digits_value(a[k + 1], 10) == o.quality
            &&& a[k + 2] == "-near_lossless"@
            &&& digits_value(a[k + 3], 10) == o.near_lossless
            &&& a[k + 4] == "-z"@
            &&& digits_value(a[k + 5], 10) == o.compression_level
            &&& a[a.len() - 5] == "-m"@
            &&& digits_value(a[a.len() - 4], 10) == o.method
            &&& a[a.len() - 3] == input
            &&& a[a.len() - 2] == "-o"@
            &&& a[a.len() - 1] == output
        }),
{
    lemma_digits_value(o.quality as nat, 10);
    lemma_digits_value(o.near_lossless as nat, 10);
    lemma_digits_value(o.compression_level as nat, 10);
    lemma_digits_value(o.method as nat, 10);
}

} // verus!
