//! Lambda packaging, layers and event sources: where a ZIP package goes in
//! S3, which files a package leaves out, what a layer is published from,
//! which layer versions a cleanup deletes, and which existing mapping an
//! event source updates. The AWS calls and the file system are the caller's.

use vstd::prelude::*;
use crate::clock::unix_secs;
use crate::text::{
    chars_of, contains_seq, decimal, opt_view, push_str, seq_views, starts_with_seq,
    str_contains, str_eq, str_has_char, str_starts_with, string_of_chars, to_owned_string,
    u64_to_string,
};

verus! {

/// Settings of a ZIP package of Lambda code.
#[derive(Debug, Clone)]
pub struct ZipPackageConfig {
    /// The directory or file that is packaged.
    pub source_path: String,
    /// Bucket the package is uploaded to; without one the package is sent directly.
    pub s3_bucket: Option<String>,
    /// Key prefix of the uploaded package.
    pub s3_prefix: Option<String>,
    /// Substrings, or glob patterns with `*`, of paths that are left out.
    pub exclude: Vec<String>,
    /// Whether files whose name starts with a dot are packaged.
    pub include_hidden: bool,
}

/// The S3 key of a package uploaded at `timestamp` (seconds since the epoch):
/// `{prefix}/{function}-{timestamp}.zip`, or `{function}-{timestamp}.zip`
/// without a prefix.
pub open spec fn zip_s3_key(prefix: Option<Seq<char>>, function_name: Seq<char>, timestamp: nat) -> Seq<char> {
    match prefix {
        Some(p) => p + "/"@ + function_name + "-"@ + decimal(timestamp) + ".zip"@,
        None => function_name + "-"@ + decimal(timestamp) + ".zip"@,
    }
}

impl ZipPackageConfig {
    /// The S3 key of the package of `function_name` uploaded at `timestamp`.
    pub fn s3_key_at(&self, function_name: &str, timestamp: u64) -> (r: String)
        ensures
            r@ == zip_s3_key(opt_view(self.s3_prefix), function_name@, timestamp as nat),
    {
        let ts = u64_to_string(timestamp);
        let mut key = match &self.s3_prefix {
            Some(p) => {
                let mut k = p.clone();
                push_str(&mut k, "/");
                push_str(&mut k, function_name);
                k
            },
            None => to_owned_string(function_name),
        };
        push_str(&mut key, "-");
        push_str(&mut key, ts.as_str());
        push_str(&mut key, ".zip");
        key
    }

    /// The S3 key of the package of `function_name` uploaded now.
    pub fn s3_key(&self, function_name: &str) -> (r: String)
        ensures
            exists|t: u64| r@ == zip_s3_key(opt_view(self.s3_prefix), function_name@, t as nat),
    {
        let now = unix_secs();
        self.s3_key_at(function_name, now)
    }
}

/// Each `**` of a pattern replaced by `.*`, left to right.
pub open spec fn collapse_double_stars(s: Seq<char>) -> Seq<char>
    decreases s.len(),
{
    if s.len() == 0 {
        seq![]
    } else if s.len() >= 2 && s[0] == '*' && s[1] == '*' {
        seq!['.', '*'] + collapse_double_stars(s.subrange(2, s.len() as int))
    } else {
        seq![s[0]] + collapse_double_stars(s.subrange(1, s.len() as int))
    }
}

/// Each `*` of a pattern replaced by `[^/]*`.
pub open spec fn stars_to_segments(s: Seq<char>) -> Seq<char>
    decreases s.len(),
{
    if s.len() == 0 {
        seq![]
    } else if s[0] == '*' {
        seq!['[', '^', '/', ']', '*'] + stars_to_segments(s.subrange(1, s.len() as int))
    } else {
        seq![s[0]] + stars_to_segments(s.subrange(1, s.len() as int))
    }
}

/// The regular expression an exclusion glob is read as: `**` becomes
/// `.*`, then every `*` becomes `[^/]*`.
pub open spec fn glob_regex(pattern: Seq<char>) -> Seq<char> {
    stars_to_segments(collapse_double_stars(pattern))
}

fn collapse_double_stars_chars(s: &Vec<char>) -> (r: Vec<char>)
    ensures
        r@ == collapse_double_stars(s@),
{
    let n = s.len();
    let mut out: Vec<char> = Vec::new();
    let mut i: usize = 0;
    assert(s@.subrange(0, n as int) =~= s@);
    while i < n
        invariant
            n == s@.len(),
            i <= n,
            out@ + collapse_double_stars(s@.subrange(i as int, n as int)) == collapse_double_stars(s@),
        decreases n - i,
    {
        let ghost rest = s@.subrange(i as int, n as int);
        let ghost before = out@;
        if s[i] == '*' && i + 1 < n && s[i + 1] == '*' {
            assert(rest.subrange(2, rest.len() as int) =~= s@.subrange(i + 2, n as int));
            out.push('.');
            out.push('*');
            i = i + 2;
            assert(out@ =~= before + seq!['.', '*']);
            assert(out@ + collapse_double_stars(s@.subrange(i as int, n as int))
                =~= before + collapse_double_stars(rest));
        } else {
            assert(rest.subrange(1, rest.len() as int) =~= s@.subrange(i + 1, n as int));
            let c = s[i];
            out.push(c);
            i = i + 1;
            assert(out@ =~= before + seq![c]);
            assert(out@ + collapse_double_stars(s@.subrange(i as int, n as int))
                =~= before + collapse_double_stars(rest));
        }
    }
    assert(s@.subrange(n as int, n as int) =~= Seq::<char>::empty());
    assert(out@ + collapse_double_stars(Seq::<char>::empty()) =~= out@);
    out
}

fn stars_to_segments_chars(s: &Vec<char>) -> (r: Vec<char>)
    ensures
        r@ == stars_to_segments(s@),
{
    let n = s.len();
    let mut out: Vec<char> = Vec::new();
    let mut i: usize = 0;
    assert(s@.subrange(0, n as int) =~= s@);
    while i < n
        invariant
            n == s@.len(),
            i <= n,
            out@ + stars_to_segments(s@.subrange(i as int, n as int)) == stars_to_segments(s@),
        decreases n - i,
    {
        let ghost rest = s@.subrange(i as int, n as int);
        let ghost before = out@;
        assert(rest.subrange(1, rest.len() as int) =~= s@.subrange(i + 1, n as int));
        let c = s[i];
        if c == '*' {
            out.push('[');
            out.push('^');
            out.push('/');
            out.push(']');
            out.push('*');
            assert(out@ =~= before + seq!['[', '^', '/', ']', '*']);
        } else {
            out.push(c);
            assert(out@ =~= before + seq![c]);
        }
        i = i + 1;
        assert(out@ + stars_to_segments(s@.subrange(i as int, n as int))
            =~= before + stars_to_segments(rest));
    }
    assert(s@.subrange(n as int, n as int) =~= Seq::<char>::empty());
    assert(out@ + stars_to_segments(Seq::<char>::empty()) =~= out@);
    out
}

/// The regular expression of an exclusion glob.
pub fn glob_to_regex(pattern: &str) -> (r: String)
    ensures
        r@ == glob_regex(pattern@),
{
    let chars = chars_of(pattern);
    let collapsed = collapse_double_stars_chars(&chars);
    let segments = stars_to_segments_chars(&collapsed);
    string_of_chars(segments.as_slice())
}

/// What the `regex` crate decides of `text` under the expression `pattern`:
/// `None` when the expression does not compile, else whether it matches
/// somewhere in the text.
pub uninterp spec fn regex_finds(pattern: Seq<char>, text: Seq<char>) -> Option<bool>;

/// `regex::Regex::new(pattern)`, then `is_match(text)` on the result.
/// Trusted: the outcome depends on the two texts alone and is named.
#[verifier::external_body]
fn regex_search(pattern: &str, text: &str) -> (r: Option<bool>)
    ensures
        r == regex_finds(pattern@, text@),
{
    match regex::Regex::new(pattern) {
        Ok(re) => Some(re.is_match(text)),
        Err(_) => None,
    }
}

/// Whether one exclusion pattern leaves `path` out: a pattern with `*` is
/// matched as a glob (a glob that does not compile leaves nothing out), any
/// other pattern as a substring.
pub open spec fn excluded_by(path: Seq<char>, pattern: Seq<char>) -> bool {
    if pattern.contains('*') {
        regex_finds(glob_regex(pattern), path) == Some(true)
    } else {
        contains_seq(path, pattern)
    }
}

/// Whether some exclusion pattern leaves `path` out.
pub open spec fn path_excluded(path: Seq<char>, patterns: Seq<Seq<char>>) -> bool {
    exists|i: int| 0 <= i < patterns.len() && excluded_by(path, #[trigger] patterns[i])
}

/// Whether a directory entry is left out of a package: a hidden file
/// (its name starts with a dot) unless hidden files are packaged, or a
/// path that an exclusion pattern leaves out.
pub open spec fn entry_skipped(config: ZipPackageConfig, file_name: Seq<char>, path: Seq<char>) -> bool {
    (!config.include_hidden && starts_with_seq(file_name, "."@))
        || path_excluded(path, seq_views(config.exclude@))
}

/// The bytes of the Deflate-compressed ZIP archive of (name, content)
/// entries in order, as the zip crate writes it; or the message of its error.
pub uninterp spec fn zip_archive_of(entries: Seq<(Seq<char>, Seq<u8>)>) -> Result<Seq<u8>, Seq<char>>;

/// The names and contents of a list of files.
pub open spec fn file_views(files: Seq<(String, Vec<u8>)>) -> Seq<(Seq<char>, Seq<u8>)> {
    files.map_values(|f: (String, Vec<u8>)| (f.0@, f.1@))
}

/// `zip::ZipWriter` over an in-memory buffer: `start_file` with Deflate
/// compression and `write_all` for each entry, then `finish`. Trusted: the
/// archive depends on the entries alone and is named (this build leaves out
/// the zip crate's `time` feature, so every entry carries the crate's fixed
/// default timestamp).
#[verifier::external_body]
fn write_zip(files: &Vec<(String, Vec<u8>)>) -> (r: Result<Vec<u8>, String>)
    ensures
        match (r, zip_archive_of(file_views(files@))) {
            (Ok(a), Ok(b)) => a@ == b,
            (Err(a), Err(b)) => a@ == b,
            _ => false,
        },
{
    let mut zip = zip::ZipWriter::new(std::io::Cursor::new(Vec::new()));
    let options = zip::write::SimpleFileOptions::default().compression_method(zip::CompressionMethod::Deflated);
    for (name, bytes) in files {
        zip.start_file(name.as_str(), options).map_err(|e| e.to_string())?;
        std::io::Write::write_all(&mut zip, bytes).map_err(|e| e.to_string())?;
    }
    zip.finish().map(|c| c.into_inner()).map_err(|e| e.to_string())
}

/// Packages Lambda code: which directory entries a package leaves out, and
/// the archive of the files it keeps. Walking and reading the file system
/// is the caller's.
#[derive(Debug, Clone, Copy)]
pub struct LambdaPackager;

impl LambdaPackager {
    /// Whether an exclusion pattern leaves `path` out.
    pub fn should_exclude(path: &str, exclude_patterns: &Vec<String>) -> (r: bool)
        ensures
            r == path_excluded(path@, seq_views(exclude_patterns@)),
    {
        let ghost pats = seq_views(exclude_patterns@);
        let mut i: usize = 0;
        while i < exclude_patterns.len()
            invariant
                pats == seq_views(exclude_patterns@),
                i <= exclude_patterns@.len(),
                forall|k: int| 0 <= k < i ==> !excluded_by(path@, #[trigger] pats[k]),
            decreases exclude_patterns.len() - i,
        {
            let pattern = exclude_patterns[i].as_str();
            assert(pats[i as int] == pattern@);
            if str_has_char(pattern, '*') {
                let re = glob_to_regex(pattern);
                let found = regex_search(re.as_str(), path);
                if found == Some(true) {
                    assert(excluded_by(path@, pats[i as int]));
                    return true;
                }
            } else if str_contains(path, pattern) {
                assert(excluded_by(path@, pats[i as int]));
                return true;
            }
            i = i + 1;
        }
        false
    }

    /// The ZIP archive of the files kept, named by their paths inside the
    /// package, in the order given.
    pub fn create_zip(files: &Vec<(String, Vec<u8>)>) -> (r: Result<Vec<u8>, String>)
        ensures
            match (r, zip_archive_of(file_views(files@))) {
                (Ok(a), Ok(b)) => a@ == b,
                (Err(a), Err(b)) => a@ == b,
                _ => false,
            },
    {
        write_zip(files)
    }

    /// Whether the directory entry `file_name` at `path` is left out.
    pub fn skips_entry(config: &ZipPackageConfig, file_name: &str, path: &str) -> (r: bool)
        ensures
            r == entry_skipped(*config, file_name@, path@),
    {
        if !config.include_hidden && str_starts_with(file_name, ".") {
            return true;
        }
        Self::should_exclude(path, &config.exclude)
    }
}

/// Where a package was uploaded.
#[derive(Debug, Clone)]
pub struct S3Location {
    pub bucket: String,
    pub key: String,
}

/// Settings of a Lambda layer.
#[derive(Debug, Clone)]
pub struct LayerConfig {
    pub name: String,
    pub description: Option<String>,
    /// A local directory the layer is packaged from.
    pub source_path: Option<String>,
    /// An uploaded package the layer is published from.
    pub s3_bucket: Option<String>,
    pub s3_key: Option<String>,
    pub compatible_runtimes: Vec<String>,
    pub compatible_architectures: Vec<String>,
    pub license_info: Option<String>,
}

/// What a layer version is published from.
#[derive(Debug, Clone)]
pub enum LayerContent {
    /// A package made from a local directory, with no exclusions and no hidden files.
    Package(ZipPackageConfig),
    /// An uploaded package.
    S3Object { bucket: String, key: String },
}

/// Why a layer operation could not go on.
#[derive(Debug, Clone)]
pub enum LayerError {
    NoContent,
    NoArnReturned,
    NoVersions(String),
}

/// The message of a layer error.
pub open spec fn layer_error_text(e: LayerError) -> Seq<char> {
    match e {
        LayerError::NoContent => "Layer config must specify either source_path or s3_bucket/s3_key"@,
        LayerError::NoArnReturned => "No layer ARN returned"@,
        LayerError::NoVersions(name) => "No versions found for layer "@ + name@,
    }
}

impl LayerError {
    pub fn to_string(&self) -> (r: String)
        ensures
            r@ == layer_error_text(*self),
    {
        match self {
            LayerError::NoContent => to_owned_string("Layer config must specify either source_path or s3_bucket/s3_key"),
            LayerError::NoArnReturned => to_owned_string("No layer ARN returned"),
            LayerError::NoVersions(name) => {
                let mut m = to_owned_string("No versions found for layer ");
                push_str(&mut m, name.as_str());
                m
            },
        }
    }
}

/// What a layer is published from: its source directory when it names
/// one, else its uploaded package when it names both bucket and key.
pub fn layer_content(config: &LayerConfig) -> (r: Result<LayerContent, LayerError>)
    ensures
        match config.source_path {
            Some(p) => match r {
                Ok(LayerContent::Package(z)) => z.source_path@ == p@ && z.s3_bucket is None
                    && z.s3_prefix is None && z.exclude@.len() == 0 && !z.include_hidden,
                _ => false,
            },
            None => match (config.s3_bucket, config.s3_key) {
                (Some(b), Some(k)) => match r {
                    Ok(LayerContent::S3Object { bucket, key }) => bucket@ == b@ && key@ == k@,
                    _ => false,
                },
                _ => r matches Err(LayerError::NoContent),
            },
        },
{
    match &config.source_path {
        Some(p) => Ok(LayerContent::Package(ZipPackageConfig {
            source_path: p.clone(),
            s3_bucket: None,
            s3_prefix: None,
            exclude: Vec::new(),
            include_hidden: false,
        })),
        None => match (&config.s3_bucket, &config.s3_key) {
            (Some(b), Some(k)) => Ok(LayerContent::S3Object { bucket: b.clone(), key: k.clone() }),
            _ => Err(LayerError::NoContent),
        },
    }
}

/// A published layer version.
#[derive(Debug, Clone)]
pub struct PublishedLayer {
    pub name: String,
    pub arn: String,
    pub version: i64,
}

/// A listed layer version.
#[derive(Debug, Clone)]
pub struct LayerVersion {
    pub version: i64,
    pub arn: String,
    pub description: Option<String>,
    pub created_date: Option<String>,
}

/// The versions a cleanup deletes from a list ordered newest first,
/// keeping the newest `keep`: the others, oldest first.
pub open spec fn versions_to_delete(versions: Seq<LayerVersion>, keep: nat) -> Seq<i64> {
    if versions.len() <= keep {
        seq![]
    } else {
        Seq::new((versions.len() - keep) as nat, |i: int| versions[versions.len() - 1 - i].version)
    }
}

/// A cleanup keeps the newest `keep` versions: it deletes exactly the
/// versions listed after them, each once, oldest first.
pub proof fn lemma_cleanup_keeps_newest(versions: Seq<LayerVersion>, keep: nat)
    ensures
        versions_to_delete(versions, keep).len() == (if versions.len() > keep { versions.len() - keep } else { 0 }),
        forall|k: int| 0 <= k < versions_to_delete(versions, keep).len() ==> {
            let j = versions.len() - 1 - k;
            &&& keep <= j < versions.len()
            &&& #[trigger] versions_to_delete(versions, keep)[k] == versions[j].version
        },
        forall|j: int| keep <= j < versions.len() ==>
            versions_to_delete(versions, keep)[versions.len() - 1 - j] == (#[trigger] versions[j]).version,
{
}

/// The version numbers a cleanup deletes, in the order it deletes them.
pub fn old_layer_versions(versions: &Vec<LayerVersion>, keep_versions: usize) -> (r: Vec<i64>)
    ensures
        r@ == versions_to_delete(versions@, keep_versions as nat),
{
    let n = versions.len();
    let mut out: Vec<i64> = Vec::new();
    if n <= keep_versions {
        return out;
    }
    let count = n - keep_versions;
    let mut i: usize = 0;
    while i < count
        invariant
            n == versions@.len(),
            count == n - keep_versions,
            count <= n,
            i <= count,
            out@.len() == i,
            forall|k: int| 0 <= k < i ==> #[trigger] out@[k] == versions@[n - 1 - k].version,
        decreases count - i,
    {
        out.push(versions[n - 1 - i].version);
        i = i + 1;
    }
    assert(out@ =~= versions_to_delete(versions@, keep_versions as nat));
    out
}

/// The ARN of the newest version of a layer, from a list ordered newest first.
pub fn latest_layer_arn(layer_name: &str, versions: &Vec<LayerVersion>) -> (r: Result<String, LayerError>)
    ensures
        versions@.len() > 0 ==> (r matches Ok(a) && a@ == versions@[0].arn@),
        versions@.len() == 0 ==> (r matches Err(LayerError::NoVersions(n)) && n@ == layer_name@),
{
    if versions.len() == 0 {
        Err(LayerError::NoVersions(to_owned_string(layer_name)))
    } else {
        Ok(versions[0].arn.clone())
    }
}

/// The kind of source that triggers a function.
#[derive(Debug, Clone, Copy, PartialEq, Eq, Structural)]
pub enum EventSourceType {
    Sqs,
    Sns,
    DynamodbStream,
    KinesisStream,
    Kafka,
    ManagedKafka,
    ActiveMq,
    RabbitMq,
}

/// The display name of an event source type.
pub open spec fn event_source_type_text(t: EventSourceType) -> Seq<char> {
    match t {
        EventSourceType::Sqs => "SQS"@,
        EventSourceType::Sns => "SNS"@,
        EventSourceType::DynamodbStream => "DynamoDB"@,
        EventSourceType::KinesisStream => "Kinesis"@,
        EventSourceType::Kafka => "Kafka"@,
        EventSourceType::ManagedKafka => "ManagedKafka"@,
        EventSourceType::ActiveMq => "ActiveMQ"@,
        EventSourceType::RabbitMq => "RabbitMQ"@,
    }
}

impl EventSourceType {
    pub fn as_str(&self) -> (r: &'static str)
        ensures
            r@ == event_source_type_text(*self),
    {
        match self {
            EventSourceType::Sqs => "SQS",
            EventSourceType::Sns => "SNS",
            EventSourceType::DynamodbStream => "DynamoDB",
            EventSourceType::KinesisStream => "Kinesis",
            EventSourceType::Kafka => "Kafka",
            EventSourceType::ManagedKafka => "ManagedKafka",
            EventSourceType::ActiveMq => "ActiveMQ",
            EventSourceType::RabbitMq => "RabbitMQ",
        }
    }
}

/// The batch size of an event source mapping that sets none.
pub fn default_batch_size() -> (r: i32)
    ensures
        r == 10,
{
    10
}

/// The enabled flag of an event source mapping that sets none.
pub fn default_true() -> (r: bool)
    ensures
        r,
{
    true
}

/// Settings of an event source mapping.
#[derive(Debug, Clone)]
pub struct EventSourceConfig {
    pub source_type: EventSourceType,
    pub source_arn: String,
    pub batch_size: i32,
    pub maximum_batching_window_secs: Option<i32>,
    pub starting_position: Option<String>,
    pub enabled: bool,
    pub filter_patterns: Option<Vec<String>>,
    pub maximum_record_age_secs: Option<i32>,
    pub maximum_retry_attempts: Option<i32>,
    pub parallelization_factor: Option<i32>,
    pub tumbling_window_secs: Option<i32>,
    pub on_failure_destination_arn: Option<String>,
    pub function_response_types: Vec<String>,
    pub source_access: Vec<SourceAccessEntry>,
}

/// How a function reaches a Kafka or MQ source.
#[derive(Debug, Clone)]
pub struct SourceAccessEntry {
    pub access_type: String,
    pub uri: String,
}

/// An event source mapping as AWS reports it.
#[derive(Debug, Clone)]
pub struct EventSourceMapping {
    pub uuid: String,
    pub source_arn: String,
    pub function_arn: String,
    pub state: Option<String>,
    pub batch_size: Option<i32>,
}

/// Whether `i` is the first mapping of `source_arn`.
pub open spec fn first_mapping_of(mappings: Seq<EventSourceMapping>, source_arn: Seq<char>, i: int) -> bool {
    &&& 0 <= i < mappings.len()
    &&& mappings[i].source_arn@ == source_arn
    &&& forall|k: int| 0 <= k < i ==> #[trigger] mappings[k].source_arn@ != source_arn
}

/// The mapping that configuring an event source updates: the first one
/// listed for the same source ARN; with none, a new mapping is created.
pub fn find_existing_mapping(mappings: &Vec<EventSourceMapping>, source_arn: &str) -> (r: Option<usize>)
    ensures
        match r {
            Some(i) => first_mapping_of(mappings@, source_arn@, i as int),
            None => forall|k: int| 0 <= k < mappings@.len() ==> #[trigger] mappings@[k].source_arn@ != source_arn@,
        },
{
    let mut i: usize = 0;
    while i < mappings.len()
        invariant
            i <= mappings@.len(),
            forall|k: int| 0 <= k < i ==> #[trigger] mappings@[k].source_arn@ != source_arn@,
        decreases mappings.len() - i,
    {
        if str_eq(mappings[i].source_arn.as_str(), source_arn) {
            return Some(i);
        }
        i = i + 1;
    }
    None
}

} // verus!
