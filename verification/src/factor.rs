//! The factor commands: which catalog entries `factor list` shows, the data
//! fields `factor compute` loads, and where each computed factor goes.
use vstd::prelude::*;
use crate::commands::factor::FactorOutputFormat;
use crate::dates::{chrono_date_parse, factor_date_message, parse_factor_date, CalendarDate};
use crate::error::QuantixError;
use crate::text::{opt_str_text, str_eq, to_lowercase, unicode_lowercase};

verus! {

/// A factor of the catalog, with its category and missing-value policy as
/// their `Debug` names, and the `Debug` text of its required fields.
#[derive(Clone, Debug, PartialEq, Eq)]
pub struct FactorMeta {
    pub id: String,
    pub category: String,
    pub description: String,
    pub required_fields: Vec<String>,
    pub required_fields_debug: String,
    pub missing_policy: String,
}

/// The category filter of `factor list` admits a category: no filter, or the
/// two agree once both are lower-cased.
pub open spec fn category_admitted(category: Seq<char>, filter: Option<Seq<char>>) -> bool {
    match filter {
        None => true,
        Some(f) => unicode_lowercase(category) == unicode_lowercase(f),
    }
}

/// The line `factor list` prints for a factor: id, category and
/// description, and with `--verbose` also its fields and missing policy.
pub open spec fn factor_line(m: FactorMeta, verbose: bool) -> Seq<char> {
    let base = m.id@ + "\t"@ + m.category@ + "\t"@ + m.description@;
    if verbose {
        base + "\tfields="@ + m.required_fields_debug@ + "\tmissing="@ + m.missing_policy@
    } else {
        base
    }
}

/// The lines of `factor list`: one per admitted factor, in catalog order.
pub open spec fn factor_listing(metas: Seq<FactorMeta>, filter: Option<Seq<char>>, verbose: bool) -> Seq<
    Seq<char>,
>
    decreases metas.len(),
{
    if metas.len() == 0 {
        Seq::empty()
    } else {
        factor_listing(metas.drop_last(), filter, verbose) + if category_admitted(
            metas.last().category@,
            filter,
        ) {
            seq![factor_line(metas.last(), verbose)]
        } else {
            Seq::empty()
        }
    }
}

fn factor_line_text(m: &FactorMeta, verbose: bool) -> (r: String)
    ensures
        r@ == factor_line(*m, verbose),
{
    let mut s = m.id.clone();
    s.append("\t");
    s.append(m.category.as_str());
    s.append("\t");
    s.append(m.description.as_str());
    if verbose {
        s.append("\tfields=");
        s.append(m.required_fields_debug.as_str());
        s.append("\tmissing=");
        s.append(m.missing_policy.as_str());
    }
    s
}

/// The lines `factor list` prints for the catalog under an optional
/// category filter.
pub fn factor_list_lines(catalog: &Vec<FactorMeta>, category: Option<&str>, verbose: bool) -> (r: Vec<String>)
    ensures
        r@.map_values(|s: String| s@) == factor_listing(catalog@, opt_str_text(category), verbose),
{
    let filter = match category {
        Some(c) => Some(to_lowercase(c)),
        None => None,
    };
    let mut lines: Vec<String> = Vec::new();
    let mut i: usize = 0;
    while i < catalog.len()
        invariant
            i <= catalog.len(),
            match category {
                Some(c) => filter matches Some(f) && f@ == unicode_lowercase(c@),
                None => filter is None,
            },
            lines@.map_values(|s: String| s@) == factor_listing(
                catalog@.take(i as int),
                opt_str_text(category),
                verbose,
            ),
        decreases catalog.len() - i,
    {
        assert(catalog@.take(i + 1).drop_last() =~= catalog@.take(i as int));
        let meta = &catalog[i];
        let admitted = match &filter {
            None => true,
            Some(f) => {
                let c = to_lowercase(meta.category.as_str());
                str_eq(c.as_str(), f.as_str())
            },
        };
        let ghost before = lines@.map_values(|s: String| s@);
        if admitted {
            let line = factor_line_text(meta, verbose);
            lines.push(line);
            assert(lines@.map_values(|s: String| s@) =~= before + seq![factor_line(*meta, verbose)]);
        } else {
            assert(lines@.map_values(|s: String| s@) =~= before + Seq::<Seq<char>>::empty());
        }
        i = i + 1;
    }
    assert(catalog@.take(i as int) =~= catalog@);
    lines
}

/// The first factor of the catalog with the given id.
pub open spec fn first_with_id(metas: Seq<FactorMeta>, id: Seq<char>) -> Option<FactorMeta>
    decreases metas.len(),
{
    if metas.len() == 0 {
        None
    } else if metas[0].id@ == id {
        Some(metas[0])
    } else {
        first_with_id(metas.drop_first(), id)
    }
}

/// The views of a list of texts.
pub open spec fn text_views(v: Seq<String>) -> Seq<Seq<char>> {
    v.map_values(|s: String| s@)
}

/// The data fields `factor compute` loads: for each requested factor that
/// the catalog knows, the fields of its first entry, in request order;
/// unknown factors add none.
pub open spec fn required_fields_for(metas: Seq<FactorMeta>, factors: Seq<String>) -> Seq<Seq<char>>
    decreases factors.len(),
{
    if factors.len() == 0 {
        Seq::empty()
    } else {
        required_fields_for(metas, factors.drop_last()) + match first_with_id(
            metas,
            factors.last()@,
        ) {
            Some(m) => text_views(m.required_fields@),
            None => Seq::empty(),
        }
    }
}

/// The search for an id stopped at `j`: no earlier entry has the id, and
/// the entry at `j` (if any) has it.
proof fn lemma_first_with_id(metas: Seq<FactorMeta>, id: Seq<char>, j: int)
    requires
        0 <= j <= metas.len(),
        forall|k: int| 0 <= k < j ==> (#[trigger] metas[k]).id@ != id,
        j < metas.len() ==> metas[j].id@ == id,
    ensures
        first_with_id(metas, id) == if j < metas.len() {
            Some(metas[j])
        } else {
            None
        },
    decreases j,
{
    if j > 0 {
        assert(metas[0].id@ != id);
        let rest = metas.drop_first();
        assert forall|k: int| 0 <= k < j - 1 implies (#[trigger] rest[k]).id@ != id by {
            assert(rest[k] == metas[k + 1]);
        }
        if j < metas.len() {
            assert(rest[j - 1] == metas[j]);
        }
        lemma_first_with_id(rest, id, j - 1);
    }
}

/// The data fields `factor compute` asks the loader for.
pub fn factor_required_fields(catalog: &Vec<FactorMeta>, factors: &Vec<String>) -> (r: Vec<String>)
    ensures
        text_views(r@) == required_fields_for(catalog@, factors@),
{
    let mut fields: Vec<String> = Vec::new();
    let mut i: usize = 0;
    while i < factors.len()
        invariant
            i <= factors.len(),
            text_views(fields@) == required_fields_for(catalog@, factors@.take(i as int)),
        decreases factors.len() - i,
    {
        let factor = &factors[i];
        let mut j: usize = 0;
        while j < catalog.len() && !str_eq(catalog[j].id.as_str(), factor.as_str())
            invariant
                j <= catalog.len(),
                forall|k: int| 0 <= k < j ==> (#[trigger] catalog@[k]).id@ != factor@,
            decreases catalog.len() - j,
        {
            j = j + 1;
        }
        proof {
            lemma_first_with_id(catalog@, factor@, j as int);
            assert(factors@.take(i + 1).drop_last() =~= factors@.take(i as int));
            assert(factors@.take(i + 1).last() == factors@[i as int]);
        }
        if j < catalog.len() {
            let fs = &catalog[j].required_fields;
            let ghost start = text_views(fields@);
            let mut k: usize = 0;
            while k < fs.len()
                invariant
                    k <= fs.len(),
                    text_views(fields@) == start + text_views(fs@.take(k as int)),
                decreases fs.len() - k,
            {
                let field = fs[k].clone();
                assert(field@ == fs@[k as int]@);
                let ghost before = fields@;
                fields.push(field);
                assert(fields@ =~= before.push(field));
                assert(fs@.take(k + 1) =~= fs@.take(k as int).push(fs@[k as int]));
                assert(text_views(fields@) =~= text_views(before).push(field@));
                assert(text_views(fs@.take(k + 1)) =~= text_views(fs@.take(k as int)).push(field@));
                assert(text_views(fields@) =~= start + text_views(fs@.take(k + 1)));
                k = k + 1;
            }
            assert(fs@.take(k as int) =~= fs@);
        } else {
            assert(text_views(fields@) =~= text_views(fields@) + Seq::<Seq<char>>::empty());
        }
        i = i + 1;
    }
    assert(factors@.take(i as int) =~= factors@);
    fields
}

/// What `factor compute` asks the data loader for.
#[derive(Clone, Debug, PartialEq, Eq)]
pub struct FactorLoadRequest {
    pub symbols: Vec<String>,
    pub start: CalendarDate,
    pub end: CalendarDate,
    pub required_fields: Vec<String>,
}

/// The date as a triple of numbers.
pub open spec fn date_triple_of(d: CalendarDate) -> (int, int, int) {
    (d.year as int, d.month as int, d.day as int)
}

/// The load request of `factor compute`. Both dates (`%Y-%m-%d`) are read
/// before anything else, the start first: a date that does not parse is
/// refused before any data is asked for. Then the fields of the requested
/// factors are gathered (see `required_fields_for`).
pub fn factor_load_request(
    catalog: &Vec<FactorMeta>,
    factors: &Vec<String>,
    symbols: Vec<String>,
    start: &str,
    end: &str,
) -> (r: Result<FactorLoadRequest, QuantixError>)
    ensures
        match chrono_date_parse(start@, "%Y-%m-%d"@) {
            Err(e) => r matches Err(QuantixError::DataParse(m)) && m@ == factor_date_message(start@, e),
            Ok(s) => match chrono_date_parse(end@, "%Y-%m-%d"@) {
                Err(e) => r matches Err(QuantixError::DataParse(m)) && m@ == factor_date_message(end@, e),
                Ok(t) => r matches Ok(req) && req.symbols@ == symbols@ && date_triple_of(req.start) == s
                    && date_triple_of(req.end) == t && text_views(req.required_fields@)
                    == required_fields_for(catalog@, factors@),
            },
        },
{
    let start_date = match parse_factor_date(start) {
        Ok(d) => d,
        Err(e) => return Err(e),
    };
    let end_date = match parse_factor_date(end) {
        Ok(d) => d,
        Err(e) => return Err(e),
    };
    let required_fields = factor_required_fields(catalog, factors);
    Ok(FactorLoadRequest { symbols, start: start_date, end: end_date, required_fields })
}

/// Where a computed factor goes: printed as a table, or written to the
/// output file in the chosen format.
#[derive(Clone, Debug, PartialEq, Eq)]
pub enum FactorOutputStep {
    Print,
    WriteFile(String),
}

/// Where `factor compute` puts each result: tables are printed; CSV and
/// JSON need `--output`; Parquet needs `--output` and is then refused as not
/// offered.
pub fn factor_output_step(format: &FactorOutputFormat, output: Option<&str>) -> (r: Result<
    FactorOutputStep,
    QuantixError,
>)
    ensures
        *format == FactorOutputFormat::Table ==> r == Ok::<FactorOutputStep, QuantixError>(
            FactorOutputStep::Print,
        ),
        (*format == FactorOutputFormat::Csv || *format == FactorOutputFormat::Json) ==> match output {
            Some(p) => r matches Ok(FactorOutputStep::WriteFile(path)) && path@ == p@,
            None => r matches Err(QuantixError::Config(m)) && m@ == if *format
                == FactorOutputFormat::Csv {
                "factor csv output requires --output <path>"@
            } else {
                "factor json output requires --output <path>"@
            },
        },
        *format == FactorOutputFormat::Parquet ==> match output {
            Some(_) => r matches Err(QuantixError::Unsupported(m)) && m@
                == "factor parquet export is not implemented in P1"@,
            None => r matches Err(QuantixError::Config(m)) && m@
                == "factor parquet output requires --output <path>"@,
        },
{
    match format {
        FactorOutputFormat::Table => Ok(FactorOutputStep::Print),
        FactorOutputFormat::Csv => match output {
            Some(p) => Ok(FactorOutputStep::WriteFile(p.to_string())),
            None => Err(QuantixError::Config("factor csv output requires --output <path>".to_string())),
        },
        FactorOutputFormat::Json => match output {
            Some(p) => Ok(FactorOutputStep::WriteFile(p.to_string())),
            None => Err(QuantixError::Config("factor json output requires --output <path>".to_string())),
        },
        FactorOutputFormat::Parquet => match output {
            Some(_) => Err(
                QuantixError::Unsupported("factor parquet export is not implemented in P1".to_string()),
            ),
            None => Err(
                QuantixError::Config("factor parquet output requires --output <path>".to_string()),
            ),
        },
    }
}

} // verus!
