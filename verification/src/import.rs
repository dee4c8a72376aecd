//! The market manifest import: the command line recorded in regression
//! reports, and the checks and quoting of ClickHouse names and values used by
//! the read-only comparison.
use vstd::prelude::*;
use crate::error::QuantixError;
use crate::text::{join_strings, join_text, opt_str_text, opt_text, replace_str, replace_text, str_eq, trim_str, trim_text};

verus! {

/// The ClickHouse side of a regression comparison.
#[derive(Clone, Debug, PartialEq, Eq)]
pub struct MarketManifestClickHouseComparisonOptions {
    pub url: Option<String>,
    pub database: String,
    pub user: String,
    pub password: String,
    pub table: Option<String>,
    pub dataset_version_column: String,
    pub symbol_column: String,
    pub date_column: String,
}

/// What a regression report is compared against.
#[derive(Clone, Debug, PartialEq, Eq)]
pub struct MarketManifestComparisonOptions {
    pub reference_artifact: Option<String>,
    pub source_of_truth_summary: Option<String>,
    pub clickhouse: MarketManifestClickHouseComparisonOptions,
}

impl MarketManifestClickHouseComparisonOptions {
    /// The ClickHouse comparison is asked for: a URL or a table is given.
    pub open spec fn enabled(self) -> bool {
        self.url is Some || self.table is Some
    }

    /// Whether the ClickHouse comparison is asked for (a URL or a table is given).
    pub fn is_enabled(&self) -> (r: bool)
        ensures
            r == self.enabled(),
    {
        self.url.is_some() || self.table.is_some()
    }
}

/// The views of a list of strings.
pub open spec fn views(v: Seq<String>) -> Seq<Seq<char>> {
    v.map_values(|s: String| s@)
}

/// A flag and its value when the value is given; nothing otherwise.
pub open spec fn opt_flag(flag: Seq<char>, value: Option<String>) -> Seq<Seq<char>> {
    match value {
        Some(v) => seq![flag, v@],
        None => Seq::empty(),
    }
}

/// The ClickHouse comparison options as command line words; the password is
/// shown as `<redacted>`, and only when one is set.
pub open spec fn clickhouse_parts(c: MarketManifestClickHouseComparisonOptions) -> Seq<Seq<char>> {
    if c.enabled() {
        opt_flag("--comparison-clickhouse-url"@, c.url) + seq![
            "--comparison-clickhouse-database"@,
            c.database@,
            "--comparison-clickhouse-user"@,
            c.user@,
        ] + (if c.password@.len() > 0 {
            seq!["--comparison-clickhouse-password"@, "<redacted>"@]
        } else {
            Seq::empty()
        }) + opt_flag("--comparison-clickhouse-table"@, c.table) + seq![
            "--comparison-clickhouse-dataset-version-column"@,
            c.dataset_version_column@,
            "--comparison-clickhouse-symbol-column"@,
            c.symbol_column@,
            "--comparison-clickhouse-date-column"@,
            c.date_column@,
        ]
    } else {
        Seq::empty()
    }
}

/// The words of the import command that a regression report records.
pub open spec fn source_command_parts(
    manifest: Seq<char>,
    dataset_version: Seq<char>,
    artifact_type: Seq<char>,
    schema_version: Option<String>,
    artifact_hash: Option<String>,
    verify_artifact_file: bool,
    comparison: MarketManifestComparisonOptions,
    regression_report_output: Option<String>,
    evidence_output: Option<String>,
    consumer_build_commit: Seq<char>,
    database_target: Seq<char>,
) -> Seq<Seq<char>> {
    seq![
        "quantix"@,
        "import"@,
        "market-manifest"@,
        "--manifest"@,
        manifest,
        "--dataset-version"@,
        dataset_version,
        "--artifact-type"@,
        artifact_type,
    ] + opt_flag("--schema-version"@, schema_version) + opt_flag("--artifact-hash"@, artifact_hash)
        + (if verify_artifact_file {
        seq!["--verify-artifact-file"@]
    } else {
        Seq::empty()
    }) + opt_flag("--comparison-reference-artifact"@, comparison.reference_artifact) + opt_flag(
        "--comparison-source-of-truth-summary"@,
        comparison.source_of_truth_summary,
    ) + clickhouse_parts(comparison.clickhouse) + opt_flag(
        "--regression-report-output"@,
        regression_report_output,
    ) + opt_flag("--evidence-output"@, evidence_output) + seq![
        "--consumer-build-commit"@,
        consumer_build_commit,
        "--database-target"@,
        database_target,
    ]
}

fn push_part(parts: &mut Vec<String>, s: &str)
    ensures
        views(final(parts)@) == views(old(parts)@).push(s@),
{
    parts.push(s.to_string());
    assert(views(parts@) =~= views(old(parts)@).push(s@));
}

fn push_opt_flag(parts: &mut Vec<String>, flag: &str, value: &Option<String>)
    ensures
        views(final(parts)@) == views(old(parts)@) + opt_flag(flag@, *value),
{
    match value {
        Some(v) => {
            push_part(parts, flag);
            push_part(parts, v.as_str());
            assert(views(parts@) =~= views(old(parts)@) + opt_flag(flag@, *value));
        },
        None => {
            assert(views(parts@) =~= views(old(parts)@) + opt_flag(flag@, *value));
        },
    }
}

fn push_clickhouse_parts(parts: &mut Vec<String>, c: &MarketManifestClickHouseComparisonOptions)
    ensures
        views(final(parts)@) == views(old(parts)@) + clickhouse_parts(*c),
{
    if !c.is_enabled() {
        assert(views(parts@) =~= views(old(parts)@) + clickhouse_parts(*c));
        return;
    }
    let ghost start = views(parts@);
    push_opt_flag(parts, "--comparison-clickhouse-url", &c.url);
    let ghost a = views(parts@);
    push_part(parts, "--comparison-clickhouse-database");
    push_part(parts, c.database.as_str());
    push_part(parts, "--comparison-clickhouse-user");
    push_part(parts, c.user.as_str());
    let ghost b = views(parts@);
    if !c.password.as_str().is_empty() {
        push_part(parts, "--comparison-clickhouse-password");
        push_part(parts, "<redacted>");
    }
    let ghost p = views(parts@);
    push_opt_flag(parts, "--comparison-clickhouse-table", &c.table);
    push_part(parts, "--comparison-clickhouse-dataset-version-column");
    push_part(parts, c.dataset_version_column.as_str());
    push_part(parts, "--comparison-clickhouse-symbol-column");
    push_part(parts, c.symbol_column.as_str());
    push_part(parts, "--comparison-clickhouse-date-column");
    push_part(parts, c.date_column.as_str());
    assert(views(parts@) =~= views(old(parts)@) + clickhouse_parts(*c));
}

/// The import command line that a regression report records: the given
/// options in a fixed order, separated by single spaces.
pub fn build_import_market_manifest_source_command(
    manifest: &str,
    dataset_version: &str,
    artifact_type: &str,
    schema_version: Option<String>,
    artifact_hash: Option<String>,
    verify_artifact_file: bool,
    comparison_options: &MarketManifestComparisonOptions,
    regression_report_output: Option<String>,
    evidence_output: Option<String>,
    consumer_build_commit: &str,
    database_target: &str,
) -> (r: String)
    ensures
        r@ == join_text(
            source_command_parts(
                manifest@,
                dataset_version@,
                artifact_type@,
                schema_version,
                artifact_hash,
                verify_artifact_file,
                *comparison_options,
                regression_report_output,
                evidence_output,
                consumer_build_commit@,
                database_target@,
            ),
            " "@,
        ),
{
    let mut parts: Vec<String> = Vec::new();
    push_part(&mut parts, "quantix");
    push_part(&mut parts, "import");
    push_part(&mut parts, "market-manifest");
    push_part(&mut parts, "--manifest");
    push_part(&mut parts, manifest);
    push_part(&mut parts, "--dataset-version");
    push_part(&mut parts, dataset_version);
    push_part(&mut parts, "--artifact-type");
    push_part(&mut parts, artifact_type);
    let ghost s1 = views(parts@);
    push_opt_flag(&mut parts, "--schema-version", &schema_version);
    push_opt_flag(&mut parts, "--artifact-hash", &artifact_hash);
    let ghost s2 = views(parts@);
    if verify_artifact_file {
        push_part(&mut parts, "--verify-artifact-file");
    }
    let ghost s3 = views(parts@);
    push_opt_flag(&mut parts, "--comparison-reference-artifact", &comparison_options.reference_artifact);
    push_opt_flag(
        &mut parts,
        "--comparison-source-of-truth-summary",
        &comparison_options.source_of_truth_summary,
    );
    push_clickhouse_parts(&mut parts, &comparison_options.clickhouse);
    push_opt_flag(&mut parts, "--regression-report-output", &regression_report_output);
    push_opt_flag(&mut parts, "--evidence-output", &evidence_output);
    push_part(&mut parts, "--consumer-build-commit");
    push_part(&mut parts, consumer_build_commit);
    push_part(&mut parts, "--database-target");
    push_part(&mut parts, database_target);
    assert(views(parts@) =~= source_command_parts(
        manifest@,
        dataset_version@,
        artifact_type@,
        schema_version,
        artifact_hash,
        verify_artifact_file,
        *comparison_options,
        regression_report_output,
        evidence_output,
        consumer_build_commit@,
        database_target@,
    ));
    join_strings(&parts, " ")
}

/// An ASCII letter or digit, or `_`.
pub open spec fn is_identifier_char(c: char) -> bool {
    ('0' <= c && c <= '9') || ('A' <= c && c <= 'Z') || ('a' <= c && c <= 'z') || c == '_'
}

/// A non-empty run of ASCII letters, digits and underscores.
pub open spec fn is_safe_segment(s: Seq<char>) -> bool {
    s.len() > 0 && forall|i: int| 0 <= i < s.len() ==> is_identifier_char(#[trigger] s[i])
}

/// Dot separated segments, each a non-empty run of ASCII letters, digits and
/// underscores.
pub open spec fn is_safe_dotted_name(s: Seq<char>) -> bool {
    &&& s.len() > 0
    &&& forall|i: int| 0 <= i < s.len() ==> is_identifier_char(#[trigger] s[i]) || s[i] == '.'
    &&& s[0] != '.'
    &&& s.last() != '.'
    &&& forall|i: int| 0 <= i < s.len() - 1 ==> !(#[trigger] s[i] == '.' && s[i + 1] == '.')
}

fn identifier_char(c: char) -> (r: bool)
    ensures
        r == is_identifier_char(c),
{
    ('0' <= c && c <= '9') || ('A' <= c && c <= 'Z') || ('a' <= c && c <= 'z') || c == '_'
}

/// Whether the segment is a non-empty run of ASCII letters, digits and underscores.
pub fn is_safe_clickhouse_identifier_segment(segment: &str) -> (r: bool)
    ensures
        r == is_safe_segment(segment@),
{
    let chars = crate::text::chars_of(segment);
    if chars.len() == 0 {
        return false;
    }
    let mut i: usize = 0;
    while i < chars.len()
        invariant
            i <= chars@.len(),
            chars@ == segment@,
            forall|k: int| 0 <= k < i ==> is_identifier_char(#[trigger] chars@[k]),
        decreases chars.len() - i,
    {
        if !identifier_char(chars[i]) {
            return false;
        }
        i = i + 1;
    }
    true
}

/// The message of an empty table name.
pub open spec fn empty_table_message() -> Seq<char> {
    "ClickHouse table identifier must not be empty"@
}

/// The message of an unsafe table name.
pub open spec fn unsafe_table_message(identifier: Seq<char>) -> Seq<char> {
    "unsafe ClickHouse table identifier: "@ + identifier
}

fn dotted_name_ok(s: &str) -> (r: bool)
    ensures
        r == is_safe_dotted_name(s@),
{
    let c = crate::text::chars_of(s);
    let n = c.len();
    if n == 0 || c[0] == '.' || c[n - 1] == '.' {
        return false;
    }
    let mut i: usize = 0;
    while i < n
        invariant
            i <= n,
            n == c@.len(),
            c@ == s@,
            n > 0,
            forall|k: int| 0 <= k < i ==> is_identifier_char(#[trigger] c@[k]) || c@[k] == '.',
            forall|k: int| 0 <= k < i && k < n - 1 ==> !(#[trigger] c@[k] == '.' && c@[k + 1] == '.'),
        decreases n - i,
    {
        if !(identifier_char(c[i]) || c[i] == '.') {
            return false;
        }
        if i + 1 < n && c[i] == '.' && c[i + 1] == '.' {
            return false;
        }
        i = i + 1;
    }
    true
}

/// The trimmed table name when it is made of safe dot separated segments.
pub fn validate_clickhouse_table_identifier(identifier: &str) -> (r: Result<String, QuantixError>)
    ensures
        trim_text(identifier@).len() == 0 ==> (r matches Err(QuantixError::DataParse(m)) && m@
            == empty_table_message()),
        trim_text(identifier@).len() > 0 && is_safe_dotted_name(trim_text(identifier@)) ==> (r matches Ok(
            t,
        ) && t@ == trim_text(identifier@)),
        trim_text(identifier@).len() > 0 && !is_safe_dotted_name(trim_text(identifier@)) ==> (r matches Err(
            QuantixError::DataParse(m),
        ) && m@ == unsafe_table_message(identifier@)),
{
    let trimmed = trim_str(identifier);
    if trimmed.is_empty() {
        return Err(QuantixError::DataParse("ClickHouse table identifier must not be empty".to_string()));
    }
    if dotted_name_ok(trimmed) {
        Ok(trimmed.to_string())
    } else {
        let mut m = "unsafe ClickHouse table identifier: ".to_string();
        m.append(identifier);
        Err(QuantixError::DataParse(m))
    }
}

/// The message of an unsafe column name.
pub open spec fn unsafe_column_message(role: Seq<char>, identifier: Seq<char>) -> Seq<char> {
    "unsafe ClickHouse "@ + role + " column identifier: "@ + identifier
}

/// The trimmed column name when it is a safe segment; `role` names the column in the message.
pub fn validate_clickhouse_column_identifier(identifier: &str, role: &str) -> (r: Result<
    String,
    QuantixError,
>)
    ensures
        is_safe_segment(trim_text(identifier@)) ==> (r matches Ok(t) && t@ == trim_text(identifier@)),
        !is_safe_segment(trim_text(identifier@)) ==> (r matches Err(QuantixError::DataParse(m)) && m@
            == unsafe_column_message(role@, identifier@)),
{
    let trimmed = trim_str(identifier);
    if is_safe_clickhouse_identifier_segment(trimmed) {
        Ok(trimmed.to_string())
    } else {
        let mut m = "unsafe ClickHouse ".to_string();
        m.append(role);
        m.append(" column identifier: ");
        m.append(identifier);
        Err(QuantixError::DataParse(m))
    }
}

/// `value` for a single quoted ClickHouse literal: backslashes doubled, then
/// single quotes preceded by a backslash.
pub open spec fn clickhouse_literal_text(value: Seq<char>) -> Seq<char> {
    replace_text(replace_text(value, "\\"@, "\\\\"@), "'"@, "\\'"@)
}

/// `value` escaped for a single quoted ClickHouse literal.
pub fn clickhouse_string_literal(value: &str) -> (r: String)
    ensures
        r@ == clickhouse_literal_text(value@),
{
    proof {
        reveal_strlit("\\");
        reveal_strlit("'");
    }
    let once = replace_str(value, "\\", "\\\\");
    replace_str(once.as_str(), "'", "\\'")
}

/// A table name that passed validation passes it again unchanged.
pub proof fn lemma_validated_table_stable(identifier: Seq<char>)
    requires
        trim_text(identifier).len() > 0,
        is_safe_dotted_name(trim_text(identifier)),
    ensures
        trim_text(trim_text(identifier)) == trim_text(identifier),
        trim_text(trim_text(identifier)).len() > 0,
        is_safe_dotted_name(trim_text(trim_text(identifier))),
{
    crate::execution::lemma_trim_idempotent(identifier);
}

/// What is asked of a market data manifest: one artifact of a dataset
/// version, optionally pinned to a schema version and a content hash.
#[derive(Clone, Debug, PartialEq, Eq)]
pub struct MarketArtifactRequest {
    pub dataset_version: String,
    pub artifact_type: String,
    pub schema_version: Option<String>,
    pub artifact_hash: Option<String>,
}

/// The artifact request that `import market-manifest` resolves: the dataset
/// version and artifact type, with the schema version and hash when given.
pub fn market_artifact_request(
    dataset_version: &str,
    artifact_type: &str,
    schema_version: Option<&str>,
    artifact_hash: Option<&str>,
) -> (r: MarketArtifactRequest)
    ensures
        r.dataset_version@ == dataset_version@,
        r.artifact_type@ == artifact_type@,
        opt_text(r.schema_version) == opt_str_text(schema_version),
        opt_text(r.artifact_hash) == opt_str_text(artifact_hash),
{
    MarketArtifactRequest {
        dataset_version: dataset_version.to_string(),
        artifact_type: artifact_type.to_string(),
        schema_version: match schema_version {
            Some(v) => Some(v.to_string()),
            None => None,
        },
        artifact_hash: match artifact_hash {
            Some(h) => Some(h.to_string()),
            None => None,
        },
    }
}

/// The outcome of resolving an artifact from its manifest, given what the
/// resolution gave and, when the artifact file was checked against its hash
/// (only after a successful resolution), what that check gave: every
/// failure is a data error carrying its text.
pub fn market_artifact_outcome<A>(resolved: Result<A, String>, file_check: Option<Result<(), String>>) -> (r:
    Result<A, QuantixError>)
    ensures
        match resolved {
            Err(e) => r matches Err(QuantixError::DataParse(m)) && m@ == e@,
            Ok(a) => match file_check {
                Some(Err(e)) => r matches Err(QuantixError::DataParse(m)) && m@ == e@,
                _ => r matches Ok(x) && x == a,
            },
        },
{
    match resolved {
        Err(e) => Err(QuantixError::DataParse(e)),
        Ok(a) => match file_check {
            Some(Err(e)) => Err(QuantixError::DataParse(e)),
            _ => Ok(a),
        },
    }
}


/// The source a regression report is compared against.
#[derive(Clone, Copy, Debug, PartialEq, Eq)]
pub enum ComparisonSource {
    /// No comparison: the report stands alone.
    Nothing,
    /// A local reference artifact.
    ReferenceArtifact,
    /// A source-of-truth summary file.
    SourceOfTruthSummary,
    /// A read-only query against ClickHouse.
    ClickHouse,
}

/// What happens to the evidence file once the regression report is written.
#[derive(Clone, Debug, PartialEq, Eq)]
pub enum EvidenceStep {
    /// No evidence file was asked for.
    Skip,
    /// The evidence file is derived from the report and written.
    Write,
    /// The evidence file is refused with this error.
    Refuse(QuantixError),
}

/// What `import market-manifest` does about its report outputs: nothing, or
/// load the comparison, then either fail with `after_comparison`'s error or
/// write the regression report and take the evidence step.
#[derive(Debug, PartialEq, Eq)]
pub enum ManifestReportPlan {
    /// Neither a regression report nor an evidence file was asked for.
    NoOutputs,
    /// The comparison to load, and what follows once it is loaded.
    Outputs { comparison: ComparisonSource, after_comparison: Result<EvidenceStep, QuantixError> },
}

/// The message given when more than one comparison source is asked for.
pub open spec fn exclusive_comparison_message() -> Seq<char> {
    "--comparison-reference-artifact, --comparison-source-of-truth-summary, and --comparison-clickhouse-* options are mutually exclusive"@
}

/// How many comparison sources the options ask for.
pub open spec fn comparison_source_count(options: MarketManifestComparisonOptions) -> int {
    (if options.reference_artifact is Some { 1int } else { 0int })
        + (if options.source_of_truth_summary is Some { 1int } else { 0int })
        + (if options.clickhouse.enabled() { 1int } else { 0int })
}

/// The one comparison source asked for (`Nothing` when none is).
pub open spec fn requested_comparison(options: MarketManifestComparisonOptions) -> ComparisonSource {
    if options.reference_artifact is Some {
        ComparisonSource::ReferenceArtifact
    } else if options.source_of_truth_summary is Some {
        ComparisonSource::SourceOfTruthSummary
    } else if options.clickhouse.enabled() {
        ComparisonSource::ClickHouse
    } else {
        ComparisonSource::Nothing
    }
}

/// The message given when a comparison source is used on an artifact whose
/// file hash was not checked.
pub open spec fn comparison_needs_verification_message(source: ComparisonSource) -> Seq<char> {
    match source {
        ComparisonSource::ReferenceArtifact => "--comparison-reference-artifact requires --verify-artifact-file"@,
        ComparisonSource::SourceOfTruthSummary => "--comparison-source-of-truth-summary requires --verify-artifact-file"@,
        _ => "--comparison-clickhouse-* options require --verify-artifact-file"@,
    }
}

/// The build commit is known: one is given and it is not `unknown`.
pub open spec fn build_commit_known(consumer_build_commit: Option<&str>) -> bool {
    consumer_build_commit matches Some(c) && c@ != "unknown"@
}

/// Whether an error is a data error with the given message.
pub open spec fn is_data_error(e: QuantixError, message: Seq<char>) -> bool {
    e matches QuantixError::DataParse(m) && m@ == message
}

/// The evidence step once the regression report is written.
pub open spec fn evidence_step_spec(
    verify_artifact_file: bool,
    evidence_output: Option<&str>,
    consumer_build_commit: Option<&str>,
    step: EvidenceStep,
) -> bool {
    if evidence_output is None {
        step is Skip
    } else if !verify_artifact_file {
        step matches EvidenceStep::Refuse(e) && is_data_error(
            e,
            "--evidence-output requires --verify-artifact-file"@,
        )
    } else if !build_commit_known(consumer_build_commit) {
        step matches EvidenceStep::Refuse(e) && is_data_error(
            e,
            "--evidence-output requires --consumer-build-commit or QUANTIX_CONSUMER_BUILD_COMMIT"@,
        )
    } else {
        step is Write
    }
}

/// The order in which `import market-manifest` checks its report options:
/// nothing is done when no output is asked for; more than one comparison
/// source is refused; a comparison source needs the artifact file checked;
/// after the comparison is loaded an evidence file needs a regression report;
/// and after the report is written, the evidence file needs the file check
/// and a known build commit.
pub fn plan_manifest_report_outputs(
    options: &MarketManifestComparisonOptions,
    verify_artifact_file: bool,
    regression_report_output: Option<&str>,
    evidence_output: Option<&str>,
    consumer_build_commit: Option<&str>,
) -> (r: Result<ManifestReportPlan, QuantixError>)
    ensures
        (regression_report_output is None && evidence_output is None) ==> r == Ok::<
            ManifestReportPlan,
            QuantixError,
        >(ManifestReportPlan::NoOutputs),
        !(regression_report_output is None && evidence_output is None) ==> {
            if comparison_source_count(*options) > 1 {
                r matches Err(e) && is_data_error(e, exclusive_comparison_message())
            } else if requested_comparison(*options) != ComparisonSource::Nothing
                && !verify_artifact_file {
                r matches Err(e) && is_data_error(
                    e,
                    comparison_needs_verification_message(requested_comparison(*options)),
                )
            } else {
                r matches Ok(ManifestReportPlan::Outputs { comparison, after_comparison })
                    && comparison == requested_comparison(*options)
                    && if regression_report_output is None {
                    after_comparison matches Err(e) && is_data_error(
                        e,
                        "--evidence-output requires --regression-report-output"@,
                    )
                } else {
                    after_comparison matches Ok(step) && evidence_step_spec(
                        verify_artifact_file,
                        evidence_output,
                        consumer_build_commit,
                        step,
                    )
                }
            }
        },
        r matches Ok(ManifestReportPlan::Outputs { after_comparison: Ok(EvidenceStep::Write), .. })
            ==> verify_artifact_file && regression_report_output is Some && evidence_output is Some
            && build_commit_known(consumer_build_commit),
{
    if regression_report_output.is_none() && evidence_output.is_none() {
        return Ok(ManifestReportPlan::NoOutputs);
    }
    let has_reference = options.reference_artifact.is_some();
    let has_summary = options.source_of_truth_summary.is_some();
    let has_clickhouse = options.clickhouse.is_enabled();
    let count: u8 = (if has_reference { 1u8 } else { 0u8 }) + (if has_summary { 1u8 } else { 0u8 })
        + (if has_clickhouse { 1u8 } else { 0u8 });
    if count > 1 {
        return Err(
            QuantixError::DataParse(
                "--comparison-reference-artifact, --comparison-source-of-truth-summary, and --comparison-clickhouse-* options are mutually exclusive".to_string(),
            ),
        );
    }
    let comparison = if has_reference {
        ComparisonSource::ReferenceArtifact
    } else if has_summary {
        ComparisonSource::SourceOfTruthSummary
    } else if has_clickhouse {
        ComparisonSource::ClickHouse
    } else {
        ComparisonSource::Nothing
    };
    if !verify_artifact_file {
        match comparison {
            ComparisonSource::ReferenceArtifact => {
                return Err(
                    QuantixError::DataParse(
                        "--comparison-reference-artifact requires --verify-artifact-file".to_string(),
                    ),
                );
            },
            ComparisonSource::SourceOfTruthSummary => {
                return Err(
                    QuantixError::DataParse(
                        "--comparison-source-of-truth-summary requires --verify-artifact-file".to_string(),
                    ),
                );
            },
            ComparisonSource::ClickHouse => {
                return Err(
                    QuantixError::DataParse(
                        "--comparison-clickhouse-* options require --verify-artifact-file".to_string(),
                    ),
                );
            },
            ComparisonSource::Nothing => {},
        }
    }
    let after_comparison = if regression_report_output.is_none() {
        Err(
            QuantixError::DataParse(
                "--evidence-output requires --regression-report-output".to_string(),
            ),
        )
    } else if evidence_output.is_none() {
        Ok(EvidenceStep::Skip)
    } else if !verify_artifact_file {
        Ok(
            EvidenceStep::Refuse(
                QuantixError::DataParse(
                    "--evidence-output requires --verify-artifact-file".to_string(),
                ),
            ),
        )
    } else {
        let known = match consumer_build_commit {
            Some(c) => !str_eq(c, "unknown"),
            None => false,
        };
        if known {
            Ok(EvidenceStep::Write)
        } else {
            Ok(
                EvidenceStep::Refuse(
                    QuantixError::DataParse(
                        "--evidence-output requires --consumer-build-commit or QUANTIX_CONSUMER_BUILD_COMMIT".to_string(),
                    ),
                ),
            )
        }
    };
    Ok(ManifestReportPlan::Outputs { comparison, after_comparison })
}

} // verus!
