//! Douyin: room data, pull URLs and the choice among them.
use vstd::prelude::*;

use crate::platforms::douyin::stream_info::{stream_label, streams_view, AvailableStream, DouyinStream};
use crate::text::chars_of;
use vstd::string::StringExecFns;

pub mod api;
pub mod stream_info;

verus! {

/// The stream URL to record: the origin quality's HLS URL, when there is one.
pub fn get_best_stream_url(stream: &DouyinStream) -> (r: Option<String>)
    ensures
        stream.data.origin.main.hls@.len() == 0 <==> r is None,
        r matches Some(u) ==> u@ == stream.data.origin.main.hls@,
{
    if stream.data.origin.main.hls.as_str().is_empty() {
        return None;
    }
    Some(stream.data.origin.main.hls.clone())
}

/// The listed streams with the room's HLS pull URL added at the end, as
/// `hls_pull_url/default hls`, when it is non-empty and not listed yet.
pub open spec fn with_pull_url(
    s: Seq<(Seq<char>, Seq<char>, Seq<char>, Seq<char>)>,
    hls_pull_url: Seq<char>,
) -> Seq<(Seq<char>, Seq<char>, Seq<char>, Seq<char>)> {
    if hls_pull_url.len() > 0 && !(exists|i: int| 0 <= i < s.len() && (#[trigger] s[i]).3 == hls_pull_url) {
        s.push(("hls_pull_url"@, "default"@, "hls"@, hls_pull_url))
    } else {
        s
    }
}

/// The label of the first listed stream whose URL is `selected`, or
/// `origin/main hls` when none is.
pub open spec fn selected_label(
    s: Seq<(Seq<char>, Seq<char>, Seq<char>, Seq<char>)>,
    selected: Seq<char>,
) -> Seq<char>
    decreases s.len(),
{
    if s.len() == 0 {
        "origin/main hls"@
    } else if s[0].3 == selected {
        stream_label(s[0].0, s[0].1, s[0].2)
    } else {
        selected_label(s.drop_first(), selected)
    }
}

/// What the recorder reports about its choice of stream: the available
/// streams (the room's HLS pull URL included, see `with_pull_url`) and the
/// label of the selected one (see `selected_label`).
pub fn stream_choice(available: Vec<AvailableStream>, hls_pull_url: &str, selected: &str) -> (r: (
    Vec<AvailableStream>,
    String,
))
    ensures
        streams_view(r.0@) == with_pull_url(streams_view(available@), hls_pull_url@),
        r.1@ == selected_label(with_pull_url(streams_view(available@), hls_pull_url@), selected@),
{
    let ghost sv = streams_view(available@);
    let mut list = available;
    let pull = String::from_str(hls_pull_url);
    let mut listed = false;
    let mut i: usize = 0;
    while i < list.len()
        invariant
            i <= list.len(),
            sv == streams_view(list@),
            pull@ == hls_pull_url@,
            listed == exists|k: int| 0 <= k < i && (#[trigger] sv[k]).3 == hls_pull_url@,
        decreases list.len() - i,
    {
        if list[i].url == pull {
            assert(sv[i as int].3 == hls_pull_url@);
            listed = true;
        } else {
            assert(sv[i as int].3 != hls_pull_url@);
        }
        i += 1;
    }
    if !hls_pull_url.is_empty() && !listed {
        list.push(
            AvailableStream {
                quality: String::from_str("hls_pull_url"),
                variant: String::from_str("default"),
                format: "hls",
                url: pull,
            },
        );
        assert(streams_view(list@) =~= sv.push(("hls_pull_url"@, "default"@, "hls"@, hls_pull_url@)));
    }
    let ghost all = streams_view(list@);
    assert(all == with_pull_url(sv, hls_pull_url@));
    let sel = String::from_str(selected);
    let mut j: usize = 0;
    assert(all.skip(0) =~= all);
    while j < list.len()
        invariant
            j <= list.len(),
            all == streams_view(list@),
            all == with_pull_url(sv, hls_pull_url@),
            sv == streams_view(available@),
            sel@ == selected@,
            selected_label(all, selected@) == selected_label(all.skip(j as int), selected@),
        decreases list.len() - j,
    {
        assert(all.skip(j as int)[0] == all[j as int]);
        assert(all.skip(j as int).drop_first() =~= all.skip(j + 1));
        if list[j].url == sel {
            let label = list[j].label();
            return (list, label);
        }
        j += 1;
    }
    assert(all.skip(j as int) =~= Seq::<(Seq<char>, Seq<char>, Seq<char>, Seq<char>)>::empty());
    (list, String::from_str("origin/main hls"))
}

} // verus!
