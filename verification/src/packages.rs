//! Parsing of `cargo install --list` output.
//!
//! Each installed package is listed on a line such as
//! `suitcase v0.5.2:` or `suitcase v0.5.2 (/home/me/suitcase):`, possibly
//! followed by indented lines naming its binaries. A package line is one that
//! begins with an ASCII letter; its whitespace-separated tokens give the
//! package name, the version (leading `v` and trailing `:` removed) and
//! optionally the local path it was installed from (parentheses and trailing
//! `:` removed).

use crate::text;
use vstd::prelude::*;

verus! {

/// A package that `cargo install --list` reports, with the local path it was
/// installed from when it was not installed from the registry.
pub struct CargoPackageMetadata {
    pub name: String,
    pub version: String,
    pub path: Option<String>,
}

/// Mathematical model of [`CargoPackageMetadata`].
pub struct CargoPackageMetadataView {
    pub name: Seq<char>,
    pub version: Seq<char>,
    pub path: Option<Seq<char>>,
}

impl View for CargoPackageMetadata {
    type V = CargoPackageMetadataView;

    open spec fn view(&self) -> CargoPackageMetadataView {
        CargoPackageMetadataView {
            name: self.name@,
            version: self.version@,
            path: match self.path {
                Some(p) => Some(p@),
                None => None,
            },
        }
    }
}

impl DeepView for CargoPackageMetadata {
    type V = CargoPackageMetadataView;

    open spec fn deep_view(&self) -> CargoPackageMetadataView {
        self.view()
    }
}

/// What parsing one package line yields: the first token is the name, the
/// second (less a leading `v` and a trailing `:`) the version, the third, if
/// any (less a leading `(` and trailing `:` and `)`), the local path. `None`
/// when the line has fewer than two tokens.
pub open spec fn parse_package_line_spec(s: Seq<char>) -> Option<CargoPackageMetadataView> {
    let toks = text::split_whitespace_spec(s);
    if toks.len() < 2 {
        None
    } else {
        Some(
            CargoPackageMetadataView {
                name: toks[0],
                version: text::trim_end_matches_spec(
                    text::trim_start_matches_spec(toks[1], 'v'),
                    ':',
                ),
                path: if toks.len() >= 3 {
                    Some(
                        text::trim_end_matches_spec(
                            text::trim_end_matches_spec(
                                text::trim_start_matches_spec(toks[2], '('),
                                ':',
                            ),
                            ')',
                        ),
                    )
                } else {
                    None
                },
            },
        )
    }
}

/// Parses one line of `cargo install --list` output, as
/// [`parse_package_line_spec`] describes.
pub fn parse_package_line(s: &str) -> (r: Option<CargoPackageMetadata>)
    ensures
        r.deep_view() == parse_package_line_spec(s@),
{
    let toks = text::split_whitespace(s);
    if toks.len() < 2 {
        return None;
    }
    let name = toks[0].clone();
    let version = text::trim_end_matches(text::trim_start_matches(toks[1].as_str(), 'v').as_str(), ':');
    let path = if toks.len() >= 3 {
        Some(
            text::trim_end_matches(
                text::trim_end_matches(
                    text::trim_start_matches(toks[2].as_str(), '(').as_str(),
                    ':',
                ).as_str(),
                ')',
            ),
        )
    } else {
        None
    };
    Some(CargoPackageMetadata { name, version, path })
}

/// What parsing a whole listing yields: every line that begins with an ASCII
/// letter parsed in order; `None` when any such line is malformed.
pub open spec fn parse_lines_rec(ls: Seq<Seq<char>>) -> Option<Seq<CargoPackageMetadataView>>
    decreases ls.len(),
{
    if ls.len() == 0 {
        Some(Seq::empty())
    } else {
        let rest = parse_lines_rec(ls.drop_last());
        if !text::starts_with_ascii_letter(ls.last()) {
            rest
        } else {
            match (rest, parse_package_line_spec(ls.last())) {
                (Some(ps), Some(p)) => Some(ps.push(p)),
                _ => None,
            }
        }
    }
}

/// The packages of a `cargo install --list` listing.
pub open spec fn parse_installed_packages_spec(stdout: Seq<char>) -> Option<
    Seq<CargoPackageMetadataView>,
> {
    parse_lines_rec(text::lines_spec(stdout))
}

proof fn lemma_parse_lines_none_extends(ls: Seq<Seq<char>>, i: int)
    requires
        0 <= i <= ls.len(),
        parse_lines_rec(ls.subrange(0, i)) is None,
    ensures
        parse_lines_rec(ls) is None,
    decreases ls.len() - i,
{
    if i < ls.len() {
        assert(ls.subrange(0, i + 1).drop_last() =~= ls.subrange(0, i));
        assert(parse_lines_rec(ls.subrange(0, i + 1)) is None);
        lemma_parse_lines_none_extends(ls, i + 1);
    } else {
        assert(ls.subrange(0, ls.len() as int) =~= ls);
    }
}

/// Parses `cargo install --list` output into the packages it reports, as
/// [`parse_installed_packages_spec`] describes; `None` when some package line
/// is malformed.
pub fn parse_installed_packages(stdout: &str) -> (r: Option<Vec<CargoPackageMetadata>>)
    ensures
        r.deep_view() == parse_installed_packages_spec(stdout@),
{
    let ls = text::lines(stdout);
    let ghost dv = ls.deep_view();
    let n = ls.len();
    proof {
        assert(dv.len() == n);
    }
    let mut acc: Vec<CargoPackageMetadata> = Vec::new();
    let mut i: usize = 0;
    while i < n
        invariant
            n == ls.len(),
            ls.deep_view() == dv,
            dv == text::lines_spec(stdout@),
            0 <= i <= n,
            parse_lines_rec(dv.subrange(0, i as int)) == Some(acc.deep_view()),
        decreases n - i,
    {
        proof {
            assert(dv.subrange(0, i + 1).drop_last() =~= dv.subrange(0, i as int));
            assert(dv.subrange(0, i + 1).last() == dv[i as int]);
        }
        if text::starts_with_letter(ls[i].as_str()) {
            match parse_package_line(ls[i].as_str()) {
                Some(p) => {
                    let ghost old_acc = acc.deep_view();
                    acc.push(p);
                    proof {
                        assert(acc.deep_view() =~= old_acc.push(acc@[acc@.len() - 1]@));
                    }
                },
                None => {
                    proof {
                        lemma_parse_lines_none_extends(dv, i + 1);
                    }
                    return None;
                },
            }
        }
        i = i + 1;
    }
    proof {
        assert(dv.subrange(0, n as int) =~= dv);
    }
    Some(acc)
}

/// The first package of the listing with the given name.
pub open spec fn find_package_spec(
    ps: Seq<CargoPackageMetadataView>,
    name: Seq<char>,
) -> Option<CargoPackageMetadataView>
    decreases ps.len(),
{
    if ps.len() == 0 {
        None
    } else if ps.first().name == name {
        Some(ps.first())
    } else {
        find_package_spec(ps.drop_first(), name)
    }
}

proof fn lemma_find_package_step(ps: Seq<CargoPackageMetadataView>, name: Seq<char>, i: int)
    requires
        0 <= i < ps.len(),
        find_package_spec(ps.subrange(0, i), name) is None,
    ensures
        ps[i].name == name ==> find_package_spec(ps, name) == Some(ps[i]),
        ps[i].name != name ==> find_package_spec(ps.subrange(0, i + 1), name) is None,
    decreases i,
{
    if i == 0 {
        if ps[0].name == name {
            assert(ps.first() == ps[0]);
        } else {
            assert(find_package_spec(Seq::<CargoPackageMetadataView>::empty(), name) is None);
            assert(ps.subrange(0, 1).len() == 1);
            assert(ps.subrange(0, 1).first() == ps[0]);
            assert(ps.subrange(0, 1).drop_first() =~= Seq::<CargoPackageMetadataView>::empty());
        }
    } else {
        assert(ps.subrange(0, i).first() == ps.first());
        assert(ps.first().name != name) by {
            if ps.first().name == name {
                assert(find_package_spec(ps.subrange(0, i), name) is Some);
            }
        }
        assert(ps.subrange(0, i).drop_first() =~= ps.drop_first().subrange(0, i - 1));
        lemma_find_package_step(ps.drop_first(), name, i - 1);
        assert(ps.drop_first()[i - 1] == ps[i]);
        if ps[i].name == name {
        } else {
            assert(ps.subrange(0, i + 1).first() == ps.first());
            assert(ps.subrange(0, i + 1).drop_first() =~= ps.drop_first().subrange(0, i));
        }
    }
}

/// The first listed package with the given name, as [`find_package_spec`]
/// describes.
pub fn find_package<'a>(ps: &'a Vec<CargoPackageMetadata>, name: &str) -> (r: Option<
    &'a CargoPackageMetadata,
>)
    ensures
        match r {
            Some(p) => find_package_spec(ps.deep_view(), name@) == Some(p@),
            None => find_package_spec(ps.deep_view(), name@) is None,
        },
{
    let ghost dv = ps.deep_view();
    let n = ps.len();
    proof {
        assert(dv.len() == n);
        assert(dv.subrange(0, 0) =~= Seq::<CargoPackageMetadataView>::empty());
    }
    let mut i: usize = 0;
    while i < n
        invariant
            n == ps.len(),
            ps.deep_view() == dv,
            0 <= i <= n,
            find_package_spec(dv.subrange(0, i as int), name@) is None,
        decreases n - i,
    {
        if text::str_eq(ps[i].name.as_str(), name) {
            proof {
                lemma_find_package_step(dv, name@, i as int);
            }
            return Some(&ps[i]);
        }
        proof {
            lemma_find_package_step(dv, name@, i as int);
        }
        i = i + 1;
    }
    proof {
        assert(dv.subrange(0, n as int) =~= dv);
    }
    None
}

} // verus!
