//! Identifier resolution: extract a canonical clip identifier from a
//! free-form input string, which is either a URL pointing at the media
//! service or a bare identifier.

use vstd::prelude::*;

verus! {

/// The path segments that URL parsing yields for an input string: `None`
/// when the string is not an absolute URL or the URL cannot be a base,
/// otherwise the path split on `/`. Parsing depends on the characters of
/// the input alone, so the outcome has a name that contracts can share.
pub uninterp spec fn url_path_segments(s: Seq<char>) -> Option<Seq<Seq<char>>>;

/// Relies on url::Url::parse and url::Url::path_segments: parsing either
/// fails, or yields a URL whose path segments are the path split on `/`
/// (absent only for URLs that cannot be a base). Both depend on the input
/// characters alone.
#[verifier::external_body]
fn parse_url_segments(input: &str) -> (r: Option<Vec<String>>)
    ensures
        (match r {
            Some(v) => url_path_segments(input@) == Some(v@.map_values(|s: String| s@)),
            None => url_path_segments(input@) is None,
        }),
{
    match url::Url::parse(input) {
        Ok(u) => u.path_segments().map(|segs| segs.map(|s| s.to_string()).collect()),
        Err(_) => None,
    }
}

/// The last segment of `segs` that is not empty, if any.
pub open spec fn last_nonempty(segs: Seq<Seq<char>>) -> Option<Seq<char>>
    decreases segs.len(),
{
    if segs.len() == 0 {
        None
    } else if segs.last().len() > 0 {
        Some(segs.last())
    } else {
        last_nonempty(segs.drop_last())
    }
}

/// What resolution returns: the final non-empty path segment when the input
/// parses as a URL that has one, and the input itself otherwise.
pub open spec fn resolved_id(input: Seq<char>) -> Seq<char> {
    match url_path_segments(input) {
        Some(segs) => match last_nonempty(segs) {
            Some(seg) => seg,
            None => input,
        },
        None => input,
    }
}

/// The final non-empty entry of `segs`, scanning from the back.
pub fn pick_last_nonempty(segs: &Vec<String>) -> (r: Option<String>)
    ensures
        (match r {
            Some(s) => last_nonempty(segs@.map_values(|t: String| t@)) == Some(s@),
            None => last_nonempty(segs@.map_values(|t: String| t@)) is None,
        }),
{
    let ghost view: Seq<Seq<char>> = segs@.map_values(|t: String| t@);
    let mut i: usize = segs.len();
    proof {
        assert(view.take(i as int) =~= view);
    }
    while i > 0
        invariant
            i <= segs.len(),
            view == segs@.map_values(|t: String| t@),
            last_nonempty(view) == last_nonempty(view.take(i as int)),
        decreases i,
    {
        i = i - 1;
        let seg = &segs[i];
        proof {
            assert(view.take(i as int + 1).last() == view[i as int]);
            assert(view.take(i as int + 1).drop_last() =~= view.take(i as int));
        }
        if !seg.as_str().is_empty() {
            proof {
                assert(last_nonempty(view.take(i as int + 1)) == Some(view[i as int]));
            }
            return Some(seg.clone());
        }
        proof {
            assert(last_nonempty(view.take(i as int + 1)) == last_nonempty(view.take(i as int)));
        }
    }
    proof {
        assert(view.take(0) =~= Seq::<Seq<char>>::empty());
    }
    None
}

/// Resolve a free-form input to a clip identifier: the last non-empty path
/// segment of the input read as a URL, or the input unchanged when it does
/// not parse or no such segment exists. Resolution never fails.
pub fn resolve_identifier(input: &str) -> (r: String)
    ensures
        r@ == resolved_id(input@),
{
    match parse_url_segments(input) {
        Some(segs) => match pick_last_nonempty(&segs) {
            Some(seg) => seg,
            None => input.to_owned(),
        },
        None => input.to_owned(),
    }
}

} // verus!
