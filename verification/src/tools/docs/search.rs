//! Search tool
//!
//! The pure parts of the search over the package registry: the parameters,
//! the raw record type, the normalization of raw records, and the text
//! rendering of results. Sending the request and decoding the response
//! into raw records is the caller's business.

use crate::tools::docs::lookup::{url_encode, url_encoded};
use crate::utils::string::{spec_u64_string, str_eq, u64_to_string};
use vstd::prelude::*;
use vstd::string::StringExecFns;

verus! {

/// Parameters of the search tool.
pub struct SearchCratesTool {
    /// Search keywords
    pub query: String,
    /// Largest number of results wanted, between 1 and 100
    pub limit: Option<u32>,
    /// Output format: markdown, text or json
    pub format: Option<String>,
}

/// One raw record of the registry's search response: the fields the search
/// reads, each possibly missing.
pub struct CrateRecord {
    /// Package name
    pub name: Option<String>,
    /// Package description
    pub description: Option<String>,
    /// Newest version
    pub max_version: Option<String>,
    /// Download count
    pub downloads: Option<u64>,
    /// Repository address
    pub repository: Option<String>,
    /// Documentation address
    pub documentation: Option<String>,
}

/// One search result entry.
pub struct CrateInfo {
    /// Package name
    pub name: String,
    /// Package description
    pub description: Option<String>,
    /// Newest version
    pub version: String,
    /// Download count
    pub downloads: u64,
    /// Repository address
    pub repository: Option<String>,
    /// Documentation address
    pub documentation: Option<String>,
}

/// What a search result entry looks like in specifications.
pub ghost struct InfoModel {
    /// Package name
    pub name: Seq<char>,
    /// Package description
    pub description: Option<Seq<char>>,
    /// Newest version
    pub version: Seq<char>,
    /// Download count
    pub downloads: u64,
    /// Repository address
    pub repository: Option<Seq<char>>,
    /// Documentation address
    pub documentation: Option<Seq<char>>,
}

impl View for CrateInfo {
    type V = InfoModel;

    open spec fn view(&self) -> InfoModel {
        InfoModel {
            name: self.name@,
            description: match self.description {
                Some(d) => Some(d@),
                None => None,
            },
            version: self.version@,
            downloads: self.downloads,
            repository: match self.repository {
                Some(r) => Some(r@),
                None => None,
            },
            documentation: match self.documentation {
                Some(d) => Some(d@),
                None => None,
            },
        }
    }
}

/// The entry a raw record normalizes to: missing name, version and
/// download count get fixed defaults, the rest stays optional.
pub open spec fn record_info(r: CrateRecord) -> InfoModel {
    InfoModel {
        name: match r.name {
            Some(n) => n@,
            None => "Unknown"@,
        },
        description: match r.description {
            Some(d) => Some(d@),
            None => None,
        },
        version: match r.max_version {
            Some(v) => v@,
            None => "0.0.0"@,
        },
        downloads: match r.downloads {
            Some(d) => d,
            None => 0,
        },
        repository: match r.repository {
            Some(rp) => Some(rp@),
            None => None,
        },
        documentation: match r.documentation {
            Some(d) => Some(d@),
            None => None,
        },
    }
}

fn build_info(rec: CrateRecord) -> (r: CrateInfo)
    ensures
        r@ == record_info(rec),
{
    CrateInfo {
        name: match rec.name {
            Some(n) => n,
            None => String::from_str("Unknown"),
        },
        description: rec.description,
        version: match rec.max_version {
            Some(v) => v,
            None => String::from_str("0.0.0"),
        },
        downloads: match rec.downloads {
            Some(d) => d,
            None => 0,
        },
        repository: rec.repository,
        documentation: rec.documentation,
    }
}

/// Normalize the raw records of a search response: apply the defaults for
/// missing fields and keep at most `limit` entries, in the order given.
pub fn parse_crates_response(records: Vec<CrateRecord>, limit: usize) -> (r: Vec<CrateInfo>)
    ensures
        r@.len() == if records@.len() < limit {
            records@.len() as int
        } else {
            limit as int
        },
        forall|i: int| 0 <= i < r@.len() ==> (#[trigger] r@[i])@ == record_info(records@[i]),
{
    let ghost orig = records@;
    let mut rest = records;
    let mut out: Vec<CrateInfo> = Vec::new();
    while out.len() < limit && rest.len() > 0
        invariant
            out@.len() <= limit,
            out@.len() + rest@.len() == orig.len(),
            rest@ =~= orig.skip(out@.len() as int),
            forall|i: int| 0 <= i < out@.len() ==> (#[trigger] out@[i])@ == record_info(orig[i]),
        decreases rest@.len(),
    {
        let rec = rest.remove(0);
        proof {
            assert(rec == orig[out@.len() as int]);
            assert(rest@ =~= orig.skip(out@.len() as int + 1));
        }
        let info = build_info(rec);
        out.push(info);
    }
    out
}

/// The numbered head of an entry's markdown rendering: name, version and
/// download count.
pub open spec fn spec_entry_markdown_head(e: InfoModel, idx: int) -> Seq<char> {
    "## "@ + spec_u64_string(idx) + ". "@ + e.name + "\n"@ + "**版本**: "@ + e.version + "\n"@
        + "**下载量**: "@ + spec_u64_string(e.downloads as int) + "\n"@
}

/// The description line of an entry's markdown rendering, if any.
pub open spec fn spec_entry_markdown_desc(e: InfoModel) -> Seq<char> {
    match e.description {
        Some(d) => "**描述**: "@ + d + "\n"@,
        None => Seq::empty(),
    }
}

/// The repository line of an entry's markdown rendering, if any.
pub open spec fn spec_entry_markdown_repo(e: InfoModel) -> Seq<char> {
    match e.repository {
        Some(rp) => "**仓库**: [链接]("@ + rp + ")\n"@,
        None => Seq::empty(),
    }
}

/// The documentation line of an entry's markdown rendering, if any.
pub open spec fn spec_entry_markdown_doc(e: InfoModel) -> Seq<char> {
    match e.documentation {
        Some(dc) => "**文档**: [链接]("@ + dc + ")\n"@,
        None => Seq::empty(),
    }
}

/// The closing line of an entry's markdown rendering.
pub open spec fn spec_entry_markdown_tail(e: InfoModel) -> Seq<char> {
    "**Docs.rs**: [https://docs.rs/"@ + e.name + "/](https://docs.rs/"@ + e.name + "/)\n\n"@
}

/// The markdown rendering of one entry, numbered `idx`.
pub open spec fn spec_entry_markdown(e: InfoModel, idx: int) -> Seq<char> {
    spec_entry_markdown_head(e, idx) + spec_entry_markdown_desc(e) + spec_entry_markdown_repo(e)
        + spec_entry_markdown_doc(e) + spec_entry_markdown_tail(e)
}

/// The markdown rendering of the entries from position `i` on.
pub open spec fn spec_entries_markdown(entries: Seq<InfoModel>, i: int) -> Seq<char>
    decreases entries.len() - i,
{
    if i < 0 || i >= entries.len() {
        Seq::empty()
    } else {
        spec_entry_markdown(entries[i], i + 1) + spec_entries_markdown(entries, i + 1)
    }
}

/// The numbered head of an entry's plain-text rendering.
pub open spec fn spec_entry_text_head(e: InfoModel, idx: int) -> Seq<char> {
    spec_u64_string(idx) + ". "@ + e.name + "\n"@ + "   版本: "@ + e.version + "\n"@ + "   下载量: "@
        + spec_u64_string(e.downloads as int) + "\n"@
}

/// The description line of an entry's plain-text rendering, if any.
pub open spec fn spec_entry_text_desc(e: InfoModel) -> Seq<char> {
    match e.description {
        Some(d) => "   描述: "@ + d + "\n"@,
        None => Seq::empty(),
    }
}

/// The closing lines of an entry's plain-text rendering.
pub open spec fn spec_entry_text_tail(e: InfoModel) -> Seq<char> {
    "   Docs.rs: https://docs.rs/"@ + e.name + "/\n"@ + "\n"@
}

/// The plain-text rendering of one entry, numbered `idx`.
pub open spec fn spec_entry_text(e: InfoModel, idx: int) -> Seq<char> {
    spec_entry_text_head(e, idx) + spec_entry_text_desc(e) + spec_entry_text_tail(e)
}

/// The plain-text rendering of the entries from position `i` on.
pub open spec fn spec_entries_text(entries: Seq<InfoModel>, i: int) -> Seq<char>
    decreases entries.len() - i,
{
    if i < 0 || i >= entries.len() {
        Seq::empty()
    } else {
        spec_entry_text(entries[i], i + 1) + spec_entries_text(entries, i + 1)
    }
}

/// The models of a run of entries.
pub open spec fn infos_model(s: Seq<CrateInfo>) -> Seq<InfoModel> {
    Seq::new(s.len(), |i: int| s[i]@)
}

/// What the result rendering produces: the plain-text listing for format
/// `text`, else the markdown listing under its heading. The JSON rendering
/// is a serialization concern and so the caller's business.
pub open spec fn spec_format_search_results(entries: Seq<InfoModel>, format: Seq<char>) -> Seq<
    char,
> {
    if format == "text"@ {
        spec_entries_text(entries, 0)
    } else {
        "# 搜索结果\n\n"@ + spec_entries_markdown(entries, 0)
    }
}

#[verifier::rlimit(100)]
fn append_entry_markdown(out: &mut String, e: &CrateInfo, idx: u64)
    ensures
        final(out)@ == old(out)@ + spec_entry_markdown(e@, idx as int),
{
    let ghost base = out@;
    out.append("## ");
    let digits = u64_to_string(idx);
    out.append(digits.as_str());
    out.append(". ");
    out.append(e.name.as_str());
    out.append("\n");
    out.append("**版本**: ");
    out.append(e.version.as_str());
    out.append("\n");
    out.append("**下载量**: ");
    let downloads = u64_to_string(e.downloads);
    out.append(downloads.as_str());
    out.append("\n");
    proof {
        assert(out@ =~= base + spec_entry_markdown_head(e@, idx as int));
    }
    let ghost with_head = out@;
    match &e.description {
        Some(d) => {
            out.append("**描述**: ");
            out.append(d.as_str());
            out.append("\n");
        },
        None => {
        },
    }
    proof {
        assert(out@ =~= with_head + spec_entry_markdown_desc(e@));
    }
    let ghost with_desc = out@;
    match &e.repository {
        Some(rp) => {
            out.append("**仓库**: [链接](");
            out.append(rp.as_str());
            out.append(")\n");
        },
        None => {
        },
    }
    proof {
        assert(out@ =~= with_desc + spec_entry_markdown_repo(e@));
    }
    let ghost with_repo = out@;
    match &e.documentation {
        Some(dc) => {
            out.append("**文档**: [链接](");
            out.append(dc.as_str());
            out.append(")\n");
        },
        None => {
        },
    }
    proof {
        assert(out@ =~= with_repo + spec_entry_markdown_doc(e@));
    }
    let ghost with_doc = out@;
    out.append("**Docs.rs**: [https://docs.rs/");
    out.append(e.name.as_str());
    out.append("/](https://docs.rs/");
    out.append(e.name.as_str());
    out.append("/)\n\n");
    proof {
        assert(out@ =~= with_doc + spec_entry_markdown_tail(e@));
        assert(out@ =~= base + spec_entry_markdown(e@, idx as int));
    }
}

fn append_entry_text(out: &mut String, e: &CrateInfo, idx: u64)
    ensures
        final(out)@ == old(out)@ + spec_entry_text(e@, idx as int),
{
    let ghost base = out@;
    let digits = u64_to_string(idx);
    out.append(digits.as_str());
    out.append(". ");
    out.append(e.name.as_str());
    out.append("\n");
    out.append("   版本: ");
    out.append(e.version.as_str());
    out.append("\n");
    out.append("   下载量: ");
    let downloads = u64_to_string(e.downloads);
    out.append(downloads.as_str());
    out.append("\n");
    proof {
        assert(out@ =~= base + spec_entry_text_head(e@, idx as int));
    }
    let ghost with_head = out@;
    match &e.description {
        Some(d) => {
            out.append("   描述: ");
            out.append(d.as_str());
            out.append("\n");
        },
        None => {
        },
    }
    proof {
        assert(out@ =~= with_head + spec_entry_text_desc(e@));
    }
    let ghost with_desc = out@;
    out.append("   Docs.rs: https://docs.rs/");
    out.append(e.name.as_str());
    out.append("/\n");
    out.append("\n");
    proof {
        assert(out@ =~= with_desc + spec_entry_text_tail(e@));
        assert(out@ =~= base + spec_entry_text(e@, idx as int));
    }
}

/// Render search results: a plain-text listing for format `text`, else the
/// markdown listing under its heading.
pub fn format_search_results(crates: &Vec<CrateInfo>, format: &str) -> (r: String)
    ensures
        r@ == spec_format_search_results(infos_model(crates@), format@),
{
    let n = crates.len();
    let ghost m = infos_model(crates@);
    if str_eq(format, "text") {
        let mut out = String::new();
        let mut i: usize = 0;
        while i < n
            invariant
                i <= n,
                n == crates@.len(),
                m == infos_model(crates@),
                spec_entries_text(m, 0) =~= out@ + spec_entries_text(m, i as int),
            decreases n - i,
        {
            proof {
                assert(spec_entries_text(m, i as int) == spec_entry_text(m[i as int], i + 1)
                    + spec_entries_text(m, i + 1));
                assert(m[i as int] == crates@[i as int]@);
            }
            append_entry_text(&mut out, &crates[i], (i as u64) + 1);
            i += 1;
            proof {
                assert(spec_entries_text(m, 0) =~= out@ + spec_entries_text(m, i as int));
            }
        }
        proof {
            assert(spec_entries_text(m, n as int) == Seq::<char>::empty());
            assert(out@ =~= spec_entries_text(m, 0));
        }
        out
    } else {
        let mut out = String::from_str("# 搜索结果\n\n");
        let mut i: usize = 0;
        while i < n
            invariant
                i <= n,
                n == crates@.len(),
                m == infos_model(crates@),
                "# 搜索结果\n\n"@ + spec_entries_markdown(m, 0) =~= out@ + spec_entries_markdown(
                    m,
                    i as int,
                ),
            decreases n - i,
        {
            proof {
                assert(spec_entries_markdown(m, i as int) == spec_entry_markdown(
                    m[i as int],
                    i + 1,
                ) + spec_entries_markdown(m, i + 1));
                assert(m[i as int] == crates@[i as int]@);
            }
            append_entry_markdown(&mut out, &crates[i], (i as u64) + 1);
            i += 1;
            proof {
                assert("# 搜索结果\n\n"@ + spec_entries_markdown(m, 0) =~= out@
                    + spec_entries_markdown(m, i as int));
            }
        }
        proof {
            assert(spec_entries_markdown(m, n as int) == Seq::<char>::empty());
            assert(out@ =~= "# 搜索结果\n\n"@ + spec_entries_markdown(m, 0));
        }
        out
    }
}

/// The address of the registry's search endpoint for a query and a result
/// limit.
pub open spec fn spec_search_api_url(query: Seq<char>, limit: int) -> Seq<char> {
    "https://crates.io/api/v1/crates?q="@ + url_encoded(query) + "&per_page="@ + spec_u64_string(
        limit,
    )
}

/// Build the address of the registry's search endpoint.
pub fn search_api_url(query: &str, limit: u32) -> (r: String)
    ensures
        r@ == spec_search_api_url(query@, limit as int),
{
    let mut s = String::from_str("https://crates.io/api/v1/crates?q=");
    let encoded = url_encode(query);
    s.append(encoded.as_str());
    s.append("&per_page=");
    let digits = u64_to_string(limit as u64);
    s.append(digits.as_str());
    s
}

} // verus!
