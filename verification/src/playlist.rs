//! Expansion of a playlist into the addresses of its items.

use crate::text::{chars_of, contains, decode, first_index_of, occurs_in, views};
use vstd::prelude::*;
use vstd::string::*;
use vstd::utf8::*;

verus! {

/// What an item's identifier is appended to, to give the item's address.
pub const WATCH_PREFIX: &'static str = "https://www.youtube.com/watch?v=";

/// What the address of a playlist holds.
pub const PLAYLIST_MARKER: &'static str = "playlist?list=";

/// Why a playlist could not be expanded.
#[derive(Clone, Copy, Debug, PartialEq, Eq, Structural)]
pub enum ResolveError {
    /// The extractor exited with a failure.
    ListingFailed,
    /// The extractor's output is no UTF-8.
    NotText,
    /// The extractor listed no item.
    NoUrls,
}

/// The extractor's arguments for listing the playlist at `url`.
pub open spec fn listing_args(url: Seq<char>) -> Seq<Seq<char>> {
    seq![
        "--flat-playlist"@,
        "--get-id"@,
        "--no-warnings"@,
        "--no-check-certificates"@,
        "--ignore-errors"@,
        url,
    ]
}

/// Whether `url` is the address of a playlist.
pub open spec fn is_playlist(url: Seq<char>) -> bool {
    occurs_in(PLAYLIST_MARKER@, url)
}

/// Length of the first line of `listing`, its line ending left out. A line
/// ends with a line feed or, as the last one, with the text; a carriage
/// return directly in front of the line feed belongs to the line ending.
pub open spec fn first_line_len(listing: Seq<char>) -> nat {
    let end = first_index_of(listing, '\n') as int;
    if 0 < end < listing.len() && listing[end - 1] == '\r' {
        (end - 1) as nat
    } else {
        end as nat
    }
}

/// What follows the first line of `listing` and its line ending.
pub open spec fn after_first_line(listing: Seq<char>) -> Seq<char> {
    let end = first_index_of(listing, '\n') as int;
    if end < listing.len() {
        listing.skip(end + 1)
    } else {
        Seq::empty()
    }
}

/// The identifiers in `listing`: its lines that are not empty, in order.
pub open spec fn item_ids(listing: Seq<char>) -> Seq<Seq<char>>
    decreases listing.len(),
{
    if listing.len() == 0 {
        Seq::empty()
    } else {
        let line = listing.take(first_line_len(listing) as int);
        let rest = item_ids(after_first_line(listing));
        if line.len() > 0 {
            seq![line] + rest
        } else {
            rest
        }
    }
}

/// The addresses of the items with the identifiers `ids`.
pub open spec fn watch_urls(ids: Seq<Seq<char>>) -> Seq<Seq<char>> {
    Seq::new(ids.len(), |i: int| WATCH_PREFIX@ + ids[i])
}

/// The expansion of a playlist, from the way the extractor exited and what
/// it printed: the addresses of the items listed, in the order listed, and an
/// error where there is none.
pub open spec fn expansion(succeeded: bool, output: Seq<u8>) -> Result<
    Seq<Seq<char>>,
    ResolveError,
> {
    if !succeeded {
        Err(ResolveError::ListingFailed)
    } else if !valid_utf8(output) {
        Err(ResolveError::NotText)
    } else if item_ids(decode_utf8(output)).len() == 0 {
        Err(ResolveError::NoUrls)
    } else {
        Ok(watch_urls(item_ids(decode_utf8(output))))
    }
}

impl ResolveError {
    /// The message shown to the user.
    pub open spec fn text(self) -> Seq<char> {
        match self {
            ResolveError::ListingFailed => "Failed to get playlist URLs"@,
            ResolveError::NotText => "Playlist listing is not valid UTF-8"@,
            ResolveError::NoUrls => "No URLs found in playlist"@,
        }
    }

    /// Returns the message shown to the user.
    pub fn message(&self) -> (text: &'static str)
        ensures
            text@ == self.text(),
    {
        match self {
            ResolveError::ListingFailed => "Failed to get playlist URLs",
            ResolveError::NotText => "Playlist listing is not valid UTF-8",
            ResolveError::NoUrls => "No URLs found in playlist",
        }
    }
}

/// Returns the number of items that the extractor listed, where its listing
/// could be read: the number of addresses, and 0 for a listing without any.
pub fn listed_count(expanded: &Result<Vec<String>, ResolveError>) -> (count: Option<usize>)
    ensures
        count == (match *expanded {
            Ok(urls) => Some(urls.len()),
            Err(ResolveError::NoUrls) => Some(0usize),
            Err(_) => None,
        }),
{
    match expanded {
        Ok(urls) => Some(urls.len()),
        Err(ResolveError::NoUrls) => Some(0),
        Err(_) => None,
    }
}

/// Tells whether `url` is the address of a playlist.
pub fn is_playlist_url(url: &str) -> (b: bool)
    ensures
        b == is_playlist(url@),
{
    contains(url, PLAYLIST_MARKER)
}

/// Builds the extractor's arguments for listing the playlist at `url`.
pub fn playlist_args(url: &str) -> (args: Vec<String>)
    ensures
        views(args@) == listing_args(url@),
{
    let mut args: Vec<String> = Vec::new();
    args.push("--flat-playlist".to_owned());
    args.push("--get-id".to_owned());
    args.push("--no-warnings".to_owned());
    args.push("--no-check-certificates".to_owned());
    args.push("--ignore-errors".to_owned());
    args.push(url.to_owned());
    assert(views(args@) =~= listing_args(url@));
    args
}

/// Expands a playlist from the extractor's listing of it: `succeeded` tells
/// how the extractor exited and `output` is what it printed.
pub fn expand(succeeded: bool, output: &[u8]) -> (urls: Result<Vec<String>, ResolveError>)
    ensures
        match urls {
            Ok(urls) => expansion(succeeded, output@) == Ok::<Seq<Seq<char>>, ResolveError>(
                views(urls@),
            ),
            Err(e) => expansion(succeeded, output@) == Err::<Seq<Seq<char>>, ResolveError>(e),
        },
        urls matches Ok(listed) ==> listed.len() > 0,
{
    if !succeeded {
        return Err(ResolveError::ListingFailed);
    }
    let listing = match decode(output) {
        Some(listing) => listing,
        None => { return Err(ResolveError::NotText); },
    };
    let v = chars_of(listing);
    let mut urls: Vec<String> = Vec::new();
    let ghost mut ids: Seq<Seq<char>> = Seq::empty();
    let mut at: usize = 0;
    assert(v@.skip(0) == v@);
    assert(views(urls@) =~= watch_urls(ids));
    while at < v.len()
        invariant
            at <= v.len(),
            v@ == listing@,
            item_ids(v@) == ids + item_ids(v@.skip(at as int)),
            views(urls@) == watch_urls(ids),
        decreases v.len() - at,
    {
        let ghost here = v@.skip(at as int);
        let mut end: usize = at;
        while end < v.len() && v[end] != '\n'
            invariant
                at <= end <= v.len(),
                here == v@.skip(at as int),
                first_index_of(here, '\n') == (end - at) + first_index_of(
                    v@.skip(end as int),
                    '\n',
                ),
            decreases v.len() - end,
        {
            proof {
                let there = v@.skip(end as int);
                assert(there[0] == v@[end as int]);
                assert(there.skip(1) == v@.skip(end + 1));
            }
            end += 1;
        }
        proof {
            let there = v@.skip(end as int);
            if end < v.len() {
                assert(there[0] == v@[end as int]);
            }
            assert(first_index_of(here, '\n') == end - at);
        }
        let stop: usize = if at < end && end < v.len() && v[end - 1] == '\r' {
            end - 1
        } else {
            end
        };
        let next: usize = if end < v.len() {
            end + 1
        } else {
            end
        };
        proof {
            if at < end {
                assert(here[end - at - 1] == v@[end - 1]);
            }
            assert(first_line_len(here) == stop - at);
            assert(after_first_line(here) =~= v@.skip(next as int));
            assert(here.take(stop - at) =~= v@.subrange(at as int, stop as int));
        }
        if stop > at {
            let mut url = WATCH_PREFIX.to_owned();
            url.append(listing.substring_char(at, stop));
            let ghost line = here.take(stop - at);
            let ghost listed = urls@;
            assert(url@ == WATCH_PREFIX@ + line);
            urls.push(url);
            proof {
                assert(listed.len() == views(listed).len() == watch_urls(ids).len() == ids.len());
                assert forall|i: int| 0 <= i < urls@.len() implies views(urls@)[i] == watch_urls(
                    ids.push(line),
                )[i] by {
                    if i < listed.len() {
                        assert(views(listed)[i] == watch_urls(ids)[i]);
                    }
                }
                assert(views(urls@) =~= watch_urls(ids.push(line)));
                assert(ids + (seq![line] + item_ids(v@.skip(next as int))) =~= ids.push(line)
                    + item_ids(v@.skip(next as int)));
                ids = ids.push(line);
            }
        }
        at = next;
    }
    proof {
        assert(ids + Seq::<Seq<char>>::empty() =~= ids);
    }
    if urls.len() == 0 {
        Err(ResolveError::NoUrls)
    } else {
        Ok(urls)
    }
}

} // verus!
