use vstd::prelude::*;
use vstd::string::StringExecFns;

verus! {

/// The path that `camino::Utf8Path::join` makes of `base` and `part`.
pub uninterp spec fn path_joined(base: Seq<char>, part: Seq<char>) -> Seq<char>;

/// Relies on `camino::Utf8Path::join`: adjoins `part` to `base`; the result
/// depends on the two paths alone.
#[verifier::external_body]
fn join_path(base: &str, part: &str) -> (r: String)
    ensures
        r@ == path_joined(base@, part@),
{
    camino::Utf8Path::new(base).join(part).into_string()
}

/// The decimal digit for `d`.
pub open spec fn digit(d: nat) -> char {
    if d == 0 {
        '0'
    } else if d == 1 {
        '1'
    } else if d == 2 {
        '2'
    } else if d == 3 {
        '3'
    } else if d == 4 {
        '4'
    } else if d == 5 {
        '5'
    } else if d == 6 {
        '6'
    } else if d == 7 {
        '7'
    } else if d == 8 {
        '8'
    } else {
        '9'
    }
}

/// The decimal form of `n`, without leading zeros.
pub open spec fn decimal(n: nat) -> Seq<char>
    decreases n,
{
    if n < 10 {
        seq![digit(n)]
    } else {
        decimal(n / 10).push(digit(n % 10))
    }
}

fn digit_str(d: usize) -> (r: &'static str)
    requires
        d < 10,
    ensures
        r@ == seq![digit(d as nat)],
{
    proof {
        reveal_strlit("0");
        reveal_strlit("1");
        reveal_strlit("2");
        reveal_strlit("3");
        reveal_strlit("4");
        reveal_strlit("5");
        reveal_strlit("6");
        reveal_strlit("7");
        reveal_strlit("8");
        reveal_strlit("9");
    }
    if d == 0 {
        "0"
    } else if d == 1 {
        "1"
    } else if d == 2 {
        "2"
    } else if d == 3 {
        "3"
    } else if d == 4 {
        "4"
    } else if d == 5 {
        "5"
    } else if d == 6 {
        "6"
    } else if d == 7 {
        "7"
    } else if d == 8 {
        "8"
    } else {
        "9"
    }
}

/// Writes `n` in decimal.
pub fn to_decimal(n: usize) -> (r: String)
    ensures
        r@ == decimal(n as nat),
    decreases n,
{
    if n < 10 {
        String::from_str(digit_str(n))
    } else {
        let mut r = to_decimal(n / 10);
        r.append(digit_str(n % 10));
        r
    }
}

/// A generated script: where it stands in the site, where it is written,
/// and what it holds.
#[derive(Clone, Debug)]
pub struct SiteFile {
    pub site: String,
    pub dest: String,
    pub contents: String,
}

/// A site file as plain sequences: site path, destination, contents.
pub open spec fn file_view(f: SiteFile) -> (Seq<char>, Seq<char>, Seq<char>) {
    (f.site@, f.dest@, f.contents@)
}

pub open spec fn files_view(v: Seq<SiteFile>) -> Seq<(Seq<char>, Seq<char>, Seq<char>)> {
    v.map_values(|f: SiteFile| file_view(f))
}

/// The file for `contents` at `site` under the package directory `pkg`.
pub open spec fn placed(pkg: Seq<char>, site: Seq<char>, contents: Seq<char>) -> (
    Seq<char>,
    Seq<char>,
    Seq<char>,
) {
    (site, path_joined(pkg, site), contents)
}

/// The site path of the `i`-th inline snippet of `identifier`:
/// `snippets/<identifier>/inline<i>.js`.
pub open spec fn snippet_site(identifier: Seq<char>, i: nat) -> Seq<char> {
    path_joined(path_joined("snippets"@, identifier), "inline"@ + decimal(i) + ".js"@)
}

/// The site path of a local module: `snippets/<path>`.
pub open spec fn module_site(path: Seq<char>) -> Seq<char> {
    path_joined("snippets"@, path)
}

/// The files of the inline snippets of one identifier, in order.
pub open spec fn inline_files(pkg: Seq<char>, identifier: Seq<char>, list: Seq<String>) -> Seq<
    (Seq<char>, Seq<char>, Seq<char>),
> {
    Seq::new(list.len(), |i: int| placed(pkg, snippet_site(identifier, i as nat), list[i]@))
}

/// The files of all inline snippets, identifier by identifier.
pub open spec fn snippet_files_of(pkg: Seq<char>, snippets: Seq<(String, Vec<String>)>) -> Seq<
    (Seq<char>, Seq<char>, Seq<char>),
>
    decreases snippets.len(),
{
    if snippets.len() == 0 {
        Seq::empty()
    } else {
        snippet_files_of(pkg, snippets.drop_last()) + inline_files(
            pkg,
            snippets.last().0@,
            snippets.last().1@,
        )
    }
}

/// The files of the local modules, in order.
pub open spec fn module_files_of(pkg: Seq<char>, modules: Seq<(String, String)>) -> Seq<
    (Seq<char>, Seq<char>, Seq<char>),
> {
    Seq::new(modules.len(), |i: int| placed(pkg, module_site(modules[i].0@), modules[i].1@))
}

fn place(pkg_dir: &String, site: String, contents: &String) -> (r: SiteFile)
    ensures
        file_view(r) == placed(pkg_dir@, site@, contents@),
{
    let dest = join_path(pkg_dir.as_str(), site.as_str());
    SiteFile { site, dest, contents: contents.clone() }
}

/// The files for the inline snippets that binding generation produced, by
/// identifier, under the package directory `pkg_dir`.
pub fn snippet_files(pkg_dir: &String, snippets: &Vec<(String, Vec<String>)>) -> (r: Vec<SiteFile>)
    ensures
        files_view(r@) == snippet_files_of(pkg_dir@, snippets@),
{
    let mut r: Vec<SiteFile> = Vec::new();
    let mut k: usize = 0;
    while k < snippets.len()
        invariant
            k <= snippets@.len(),
            files_view(r@) == snippet_files_of(pkg_dir@, snippets@.take(k as int)),
        decreases snippets.len() - k,
    {
        let identifier = &snippets[k].0;
        let list = &snippets[k].1;
        let ghost prefix = files_view(r@);
        let base = join_path("snippets", identifier.as_str());
        let mut i: usize = 0;
        while i < list.len()
            invariant
                k < snippets@.len(),
                identifier == snippets@[k as int].0,
                list == snippets@[k as int].1,
                base@ == path_joined("snippets"@, identifier@),
                i <= list@.len(),
                files_view(r@) == prefix + inline_files(pkg_dir@, identifier@, list@).take(
                    i as int,
                ),
            decreases list.len() - i,
        {
            let mut name = String::from_str("inline");
            let num = to_decimal(i);
            name.append(num.as_str());
            name.append(".js");
            let site = join_path(base.as_str(), name.as_str());
            let f = place(pkg_dir, site, &list[i]);
            let ghost before = r@;
            r.push(f);
            assert(files_view(r@) =~= files_view(before).push(file_view(f)));
            assert(file_view(f) == inline_files(pkg_dir@, identifier@, list@)[i as int]);
            assert(files_view(r@) =~= prefix + inline_files(pkg_dir@, identifier@, list@).take(
                i + 1,
            ));
            i = i + 1;
        }
        assert(snippets@.take(k + 1).drop_last() =~= snippets@.take(k as int));
        assert(inline_files(pkg_dir@, identifier@, list@).take(list@.len() as int)
            =~= inline_files(pkg_dir@, identifier@, list@));
        k = k + 1;
    }
    assert(snippets@.take(snippets@.len() as int) =~= snippets@);
    r
}

/// The files for the local modules that binding generation produced, by
/// path, under the package directory `pkg_dir`.
pub fn module_files(pkg_dir: &String, modules: &Vec<(String, String)>) -> (r: Vec<SiteFile>)
    ensures
        files_view(r@) == module_files_of(pkg_dir@, modules@),
{
    let mut r: Vec<SiteFile> = Vec::new();
    let mut k: usize = 0;
    while k < modules.len()
        invariant
            k <= modules@.len(),
            files_view(r@) == module_files_of(pkg_dir@, modules@).take(k as int),
        decreases modules.len() - k,
    {
        let site = join_path("snippets", modules[k].0.as_str());
        let f = place(pkg_dir, site, &modules[k].1);
        let ghost before = r@;
        r.push(f);
        assert(files_view(r@) =~= files_view(before).push(file_view(f)));
        assert(file_view(f) == module_files_of(pkg_dir@, modules@)[k as int]);
        assert(files_view(r@) =~= module_files_of(pkg_dir@, modules@).take(k + 1));
        k = k + 1;
    }
    assert(module_files_of(pkg_dir@, modules@).take(modules@.len() as int) =~= module_files_of(
        pkg_dir@,
        modules@,
    ));
    r
}

} // verus!
