//! The HTML pages that the service serves: a fixed greeting, and a page that
//! shows the cloud project the service runs in, or why it could not be looked up.
use vstd::prelude::*;
use vstd::string::StrSliceExecFns;
use vstd::string::StringExecFns;

verus! {

/// What the resource-management service returned for a project.
pub struct ProjectInfo {
    /// The project's human-readable name.
    pub display_name: String,
    /// The project's fully qualified resource name, `projects/{identifier}`.
    pub name: String,
}

/// `s` holds `t` as a contiguous run of characters.
pub open spec fn contains(s: Seq<char>, t: Seq<char>) -> bool {
    exists|i: int| 0 <= i && i + t.len() <= s.len() && #[trigger] s.subrange(i, i + t.len()) == t
}

pub open spec fn starts_with(s: Seq<char>, prefix: Seq<char>) -> bool {
    prefix.len() <= s.len() && s.subrange(0, prefix.len() as int) == prefix
}

pub open spec fn resource_prefix() -> Seq<char> {
    "projects/"@
}

pub open spec fn greeting_html() -> Seq<char> {
    "<h1>Hello, World!</h1>"@
}

/// The resource name under which a project is looked up.
pub open spec fn resource_name(project_id: Seq<char>) -> Seq<char> {
    resource_prefix() + project_id
}

/// The value shown as the project's number: the resource name without its
/// `projects/` prefix, or `Unknown` where the name lacks that prefix.
pub open spec fn project_number_of(name: Seq<char>) -> Seq<char> {
    if starts_with(name, resource_prefix()) {
        name.skip(resource_prefix().len() as int)
    } else {
        "Unknown"@
    }
}

pub open spec fn info_html(display_name: Seq<char>, project_id: Seq<char>, number: Seq<char>) -> Seq<char> {
    "<h1>Project Info</h1><ul><li>Name: <code>"@ + display_name + "</code></li><li>ID: <code>"@
        + project_id + "</code></li><li>Number: <code>"@ + number + "</code></li></ul>"@
}

pub open spec fn error_html(error_text: Seq<char>) -> Seq<char> {
    "<h1>Error getting project info: "@ + error_text + "</h1>"@
}

/// The project page for the service's project, given the outcome of looking
/// it up: the project's fields where the lookup succeeded, else the error's text.
pub open spec fn project_page(project_id: Seq<char>, outcome: Result<ProjectInfo, String>) -> Seq<char> {
    match outcome {
        Ok(info) => info_html(info.display_name@, project_id, project_number_of(info.name@)),
        Err(e) => error_html(e@),
    }
}

/// The page served at the root: a fixed greeting.
pub fn greeting_page() -> (r: String)
    ensures
        r@ == greeting_html(),
{
    String::from_str("<h1>Hello, World!</h1>")
}

/// The resource name `projects/{project_id}` under which the project is looked up.
pub fn project_resource_name(project_id: &str) -> (r: String)
    ensures
        r@ == resource_name(project_id@),
{
    let mut r = String::from_str("projects/");
    r.append(project_id);
    r
}

/// The value shown as the project's number: `name` without its leading
/// `projects/`, or `Unknown` where `name` does not start with it.
pub fn project_number(name: &str) -> (r: String)
    ensures
        r@ == project_number_of(name@),
{
    let prefix = "projects/";
    proof {
        reveal_strlit("projects/");
    }
    let p = prefix.unicode_len();
    let n = name.unicode_len();
    if n < p {
        return String::from_str("Unknown");
    }
    let mut k: usize = 0;
    while k < p
        invariant
            p == prefix@.len(),
            prefix@ == resource_prefix(),
            n == name@.len(),
            p <= n,
            k <= p,
            name@.subrange(0, k as int) == prefix@.subrange(0, k as int),
        decreases p - k,
    {
        if name.get_char(k) != prefix.get_char(k) {
            assert(name@.subrange(0, p as int)[k as int] != prefix@[k as int]);
            return String::from_str("Unknown");
        }
        assert(name@.subrange(0, k as int + 1) =~= prefix@.subrange(0, k as int + 1));
        k = k + 1;
    }
    assert(prefix@.subrange(0, p as int) =~= prefix@);
    let rest = name.substring_char(p, n);
    assert(rest@ =~= name@.skip(p as int));
    String::from_str(rest)
}

/// The page that shows a project's display name, its identifier and the value
/// derived from its resource name.
pub fn render_project_info(display_name: &str, project_id: &str, name: &str) -> (r: String)
    ensures
        r@ == info_html(display_name@, project_id@, project_number_of(name@)),
{
    let number = project_number(name);
    let mut r = String::from_str("<h1>Project Info</h1><ul><li>Name: <code>");
    r.append(display_name);
    r.append("</code></li><li>ID: <code>");
    r.append(project_id);
    r.append("</code></li><li>Number: <code>");
    r.append(number.as_str());
    r.append("</code></li></ul>");
    r
}

/// The page that reports a failed lookup, with the error's text.
pub fn render_project_error(error_text: &str) -> (r: String)
    ensures
        r@ == error_html(error_text@),
{
    let mut r = String::from_str("<h1>Error getting project info: ");
    r.append(error_text);
    r.append("</h1>");
    r
}

/// The project page for one request: it depends on the service's project
/// identifier and on this request's own lookup outcome, and on nothing else.
/// It is a page in every case; a failed lookup is reported inside it.
pub fn project_page_for(project_id: &str, outcome: &Result<ProjectInfo, String>) -> (r: String)
    ensures
        r@ == project_page(project_id@, *outcome),
{
    match outcome {
        Ok(info) => render_project_info(info.display_name.as_str(), project_id, info.name.as_str()),
        Err(e) => render_project_error(e.as_str()),
    }
}

/// The greeting page holds the text `Hello, World!`.
pub proof fn greeting_says_hello()
    ensures
        contains(greeting_html(), "Hello, World!"@),
{
    reveal_strlit("<h1>Hello, World!</h1>");
    reveal_strlit("Hello, World!");
    let t = "Hello, World!"@;
    assert(greeting_html().subrange(4, 4 + t.len() as int) =~= t);
}

/// Whatever error a lookup failed with, the project page says
/// `Error getting project info`.
pub proof fn failed_lookup_reports_error(project_id: Seq<char>, error: String)
    ensures
        contains(project_page(project_id, Err(error)), "Error getting project info"@),
{
    let page = project_page(project_id, Err(error));
    reveal_strlit("<h1>Error getting project info: ");
    reveal_strlit("Error getting project info");
    let t = "Error getting project info"@;
    assert(page.subrange(4, 4 + t.len() as int) =~= t);
}

/// Where the lookup succeeded, the project page shows the display name, the
/// project identifier, and the resource name without its `projects/` prefix
/// (`Unknown` where it has none).
pub proof fn found_project_shows_fields(project_id: Seq<char>, info: ProjectInfo)
    ensures
        contains(project_page(project_id, Ok(info)), info.display_name@),
        contains(project_page(project_id, Ok(info)), project_id),
        contains(project_page(project_id, Ok(info)), project_number_of(info.name@)),
{
    let page = project_page(project_id, Ok(info));
    let d = info.display_name@;
    let num = project_number_of(info.name@);
    let a = "<h1>Project Info</h1><ul><li>Name: <code>"@;
    let b = "</code></li><li>ID: <code>"@;
    let c = "</code></li><li>Number: <code>"@;
    let e = "</code></li></ul>"@;
    assert(page == a + d + b + project_id + c + num + e);
    let i0 = a.len() as int;
    let i1 = i0 + d.len() + b.len();
    let i2 = i1 + project_id.len() + c.len();
    assert(page.subrange(i0, i0 + d.len()) =~= d);
    assert(page.subrange(i1, i1 + project_id.len()) =~= project_id);
    assert(page.subrange(i2, i2 + num.len()) =~= num);
}

/// Two requests whose lookups failed with different errors get different
/// pages, and a failed lookup never gives the page of a successful one: each
/// page reflects its own request's outcome.
pub proof fn pages_reflect_own_outcome(project_id: Seq<char>, e1: String, e2: String, info: ProjectInfo)
    ensures
        e1@ != e2@ ==> project_page(project_id, Err(e1)) != project_page(project_id, Err(e2)),
        project_page(project_id, Err(e1)) != project_page(project_id, Ok(info)),
{
    let head = "<h1>Error getting project info: "@;
    let tail = "</h1>"@;
    let p1 = project_page(project_id, Err(e1));
    let p2 = project_page(project_id, Err(e2));
    if e1@ != e2@ && p1 == p2 {
        assert(p1.subrange(head.len() as int, p1.len() - tail.len()) =~= e1@);
        assert(p2.subrange(head.len() as int, p2.len() - tail.len()) =~= e2@);
    }
    reveal_strlit("<h1>Error getting project info: ");
    reveal_strlit("<h1>Project Info</h1><ul><li>Name: <code>");
    let q = project_page(project_id, Ok(info));
    assert(p1[4] == 'E');
    assert(q[4] == 'P');
}

} // verus!
