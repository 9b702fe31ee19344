use vstd::prelude::*;

use crate::handler::{
    class_line, class_lines, extract_spec, json_doc, newline, tabular_text, video_line,
    video_lines, JsonDocView, video_members, class_members, tab,
};
use crate::models::{text_or_empty, ApiResponseWrapper, Class, OutputView, Video};
use crate::query::{optional_pair, query_spec};

verus! {

/// The number of times `c` occurs in `s`.
pub open spec fn count_char(s: Seq<char>, c: char) -> nat
    decreases s.len(),
{
    if s.len() == 0 {
        0
    } else {
        count_char(s.drop_last(), c) + if s.last() == c { 1nat } else { 0nat }
    }
}

/// Occurrences of a character add up over concatenation.
pub broadcast proof fn lemma_count_concat(a: Seq<char>, b: Seq<char>, c: char)
    ensures
        #[trigger] count_char(a + b, c) == count_char(a, c) + count_char(b, c),
    decreases b.len(),
{
    if b.len() == 0 {
        assert(a + b =~= a);
    } else {
        lemma_count_concat(a, b.drop_last(), c);
        assert((a + b).drop_last() =~= a + b.drop_last());
    }
}

proof fn lemma_count_single(x: char, c: char)
    ensures
        count_char(seq![x], c) == if x == c { 1nat } else { 0nat },
{
    reveal_with_fuel(count_char, 2);
    assert(seq![x].drop_last() =~= Seq::<char>::empty());
}

/// None of the printed fields of a video holds `c`.
pub open spec fn video_fields_free_of(v: Video, c: char) -> bool {
    &&& count_char(v.vod_id@, c) == 0
    &&& count_char(v.vod_name@, c) == 0
    &&& count_char(v.type_label@, c) == 0
    &&& count_char(v.vod_time@, c) == 0
    &&& count_char(v.vod_remarks@, c) == 0
    &&& count_char(text_or_empty(v.vod_blurb), c) == 0
    &&& count_char(v.vod_play_from@, c) == 0
    &&& count_char(text_or_empty(v.vod_pic), c) == 0
    &&& count_char(text_or_empty(v.vod_play_url), c) == 0
    &&& count_char(text_or_empty(v.vod_actor), c) == 0
    &&& count_char(text_or_empty(v.vod_director), c) == 0
    &&& count_char(text_or_empty(v.vod_area), c) == 0
    &&& count_char(text_or_empty(v.vod_lang), c) == 0
    &&& count_char(text_or_empty(v.vod_year), c) == 0
}

/// None of the printed fields of a category holds `c`.
pub open spec fn class_fields_free_of(k: Class, c: char) -> bool {
    &&& count_char(k.type_id@, c) == 0
    &&& count_char(k.type_label@, c) == 0
    &&& count_char(k.type_pid@, c) == 0
}

/// A video's line has its fourteen columns: when no printed field holds a
/// tab, the line holds exactly thirteen tabs.
pub proof fn law_video_line_has_fourteen_columns(v: Video)
    requires
        video_fields_free_of(v, '\t'),
    ensures
        count_char(video_line(v), '\t') == 13,
{
    broadcast use lemma_count_concat;

    lemma_count_single('\t', '\t');
}

/// A category's line has its three columns: when no printed field holds a
/// tab, the line holds exactly two tabs.
pub proof fn law_class_line_has_three_columns(k: Class)
    requires
        class_fields_free_of(k, '\t'),
    ensures
        count_char(class_line(k), '\t') == 2,
{
    broadcast use lemma_count_concat;

    lemma_count_single('\t', '\t');
}

/// One line per video: when no printed field holds a line break, the
/// rendering of a list of videos holds exactly one line break per video.
pub proof fn law_one_line_per_video(vs: Seq<Video>)
    requires
        forall|i: int| 0 <= i < vs.len() ==> video_fields_free_of(#[trigger] vs[i], '\n'),
    ensures
        count_char(video_lines(vs), '\n') == vs.len(),
    decreases vs.len(),
{
    broadcast use lemma_count_concat;

    if vs.len() > 0 {
        law_one_line_per_video(vs.drop_last());
        lemma_count_single('\t', '\n');
        lemma_count_single('\n', '\n');
        assert(video_fields_free_of(vs[vs.len() - 1], '\n'));
        assert(count_char(video_line(vs.last()), '\n') == 0);
    }
}

/// One line per category: when no printed field holds a line break, the
/// rendering of a list of categories holds exactly one line break per category.
pub proof fn law_one_line_per_class(cs: Seq<Class>)
    requires
        forall|i: int| 0 <= i < cs.len() ==> class_fields_free_of(#[trigger] cs[i], '\n'),
    ensures
        count_char(class_lines(cs), '\n') == cs.len(),
    decreases cs.len(),
{
    broadcast use lemma_count_concat;

    if cs.len() > 0 {
        law_one_line_per_class(cs.drop_last());
        lemma_count_single('\t', '\n');
        lemma_count_single('\n', '\n');
        assert(class_fields_free_of(cs[cs.len() - 1], '\n'));
        assert(count_char(class_line(cs.last()), '\n') == 0);
    }
}

/// Rendering a list of videos is rendering each part in turn.
pub proof fn law_video_lines_concat(a: Seq<Video>, b: Seq<Video>)
    ensures
        video_lines(a + b) == video_lines(a) + video_lines(b),
    decreases b.len(),
{
    if b.len() == 0 {
        assert(a + b =~= a);
        assert(video_lines(a) + video_lines(b) =~= video_lines(a));
    } else {
        law_video_lines_concat(a, b.drop_last());
        assert((a + b).drop_last() =~= a + b.drop_last());
        assert(video_lines(a + b) =~= video_lines(a) + video_lines(b));
    }
}

/// Rendering a list of categories is rendering each part in turn.
pub proof fn law_class_lines_concat(a: Seq<Class>, b: Seq<Class>)
    ensures
        class_lines(a + b) == class_lines(a) + class_lines(b),
    decreases b.len(),
{
    if b.len() == 0 {
        assert(a + b =~= a);
        assert(class_lines(a) + class_lines(b) =~= class_lines(a));
    } else {
        law_class_lines_concat(a, b.drop_last());
        assert((a + b).drop_last() =~= a + b.drop_last());
        assert(class_lines(a + b) =~= class_lines(a) + class_lines(b));
    }
}

/// A single record prints as the one-record list does in tab-separated form.
pub proof fn law_single_record_prints_as_list(v: Video, k: Class)
    ensures
        tabular_text(OutputView::Video(v)) == tabular_text(OutputView::Videos(seq![v])),
        tabular_text(OutputView::Class(k)) == tabular_text(OutputView::Classes(seq![k])),
{
    assert(seq![v].drop_last() =~= Seq::<Video>::empty());
    assert(seq![k].drop_last() =~= Seq::<Class>::empty());
    reveal_with_fuel(video_lines, 2);
    reveal_with_fuel(class_lines, 2);
    assert(video_lines(seq![v]) =~= video_line(v) + newline());
    assert(class_lines(seq![k]) =~= class_line(k) + newline());
}

/// A response that holds nothing prints nothing in tab-separated form, and
/// the empty JSON array, whatever the action.
pub proof fn law_empty_response_prints_nothing(w: ApiResponseWrapper, action: Seq<char>)
    requires
        w.holds_nothing(),
    ensures
        tabular_text(extract_spec(w, action)) == Seq::<char>::empty(),
        json_doc(extract_spec(w, action)) == JsonDocView::Array(Seq::empty()),
{
    let out = extract_spec(w, action);
    match out {
        OutputView::Videos(vs) => {
            assert(vs.len() == 0);
            assert(vs.map_values(|v: Video| video_members(v)) =~= Seq::empty());
        },
        OutputView::Classes(cs) => {
            assert(cs.len() == 0);
            assert(cs.map_values(|c: Class| class_members(c)) =~= Seq::empty());
        },
        _ => {},
    }
}

/// The request always asks for a page, and names an action exactly when one is given.
pub proof fn law_query_names_page_and_action(
    action: Seq<char>,
    t: Option<Seq<char>>,
    pg: Seq<char>,
    wd: Option<Seq<char>>,
    ids: Option<Seq<char>>,
)
    ensures
        query_spec(action, t, pg, wd, ids).contains(("pg"@, pg)),
        action.len() > 0 <==> query_spec(action, t, pg, wd, ids).contains(("ac"@, action)),
        t matches Some(x) ==> query_spec(action, t, pg, wd, ids).contains(("t"@, x)),
        wd matches Some(x) ==> query_spec(action, t, pg, wd, ids).contains(("wd"@, x)),
        ids matches Some(x) ==> query_spec(action, t, pg, wd, ids).contains(("ids"@, x)),
        query_spec(action, t, pg, wd, ids).len() == (if action.len() > 0 { 1int } else { 0int })
            + (if t is Some { 1int } else { 0int }) + 1 + (if wd is Some { 1int } else { 0int })
            + (if ids is Some { 1int } else { 0int }),
{
    let q = query_spec(action, t, pg, wd, ids);
    let head: Seq<(Seq<char>, Seq<char>)> = if action.len() > 0 {
        seq![("ac"@, action)]
    } else {
        Seq::empty()
    };
    let before = head + optional_pair("t"@, t);
    assert(q[before.len() as int] == ("pg"@, pg));
    if let Some(x) = t {
        assert(q[head.len() as int] == ("t"@, x));
    }
    if let Some(x) = wd {
        assert(q[before.len() + 1int] == ("wd"@, x));
    }
    if let Some(x) = ids {
        assert(q[q.len() - 1] == ("ids"@, x));
    }
    if action.len() > 0 {
        assert(q[0] == ("ac"@, action));
    } else {
        reveal_strlit("ac");
        reveal_strlit("t");
        reveal_strlit("pg");
        reveal_strlit("wd");
        reveal_strlit("ids");
        assert forall|i: int| 0 <= i < q.len() implies q[i].0 != "ac"@ by {
            assert(q[i].0 == "t"@ || q[i].0 == "pg"@ || q[i].0 == "wd"@ || q[i].0 == "ids"@);
            assert("ac"@[0] == 'a');
        }
    }
}

/// The output chosen for any action but `class`: the video list whenever the
/// response has one, whatever else it holds; else the video in `data`; else
/// the category list; else no videos.
pub proof fn law_other_actions_show_videos_first(w: ApiResponseWrapper, action: Seq<char>)
    requires
        action != "class"@,
    ensures
        w.list matches Some(vs) ==> extract_spec(w, action) == OutputView::Videos(vs@),
        w.list is None && w.video_in_data() is Some ==> extract_spec(w, action)
            == OutputView::Video(w.video_in_data()->0),
        w.list is None && w.video_in_data() is None && w.class is Some ==> extract_spec(w, action)
            == OutputView::Classes(w.class->0@),
        w.list is None && w.video_in_data() is None && w.class is None ==> extract_spec(w, action)
            == OutputView::Videos(Seq::empty()),
{
}

/// The output chosen for `class`: the category list whenever the response has
/// one, whatever else it holds; else the category in `data`; else the video
/// list; else no categories.
pub proof fn law_class_action_shows_categories_first(w: ApiResponseWrapper)
    ensures
        w.class matches Some(cs) ==> extract_spec(w, "class"@) == OutputView::Classes(cs@),
        w.class is None && w.class_in_data() is Some ==> extract_spec(w, "class"@)
            == OutputView::Class(w.class_in_data()->0),
        w.class is None && w.class_in_data() is None && w.list is Some ==> extract_spec(w, "class"@)
            == OutputView::Videos(w.list->0@),
        w.class is None && w.class_in_data() is None && w.list is None ==> extract_spec(w, "class"@)
            == OutputView::Classes(Seq::empty()),
{
}

/// What is printed depends only on the response's list, categories and
/// `data`, never on its code or message.
pub proof fn law_output_ignores_code_and_message(
    w1: ApiResponseWrapper,
    w2: ApiResponseWrapper,
    action: Seq<char>,
)
    requires
        w1.list == w2.list,
        w1.class == w2.class,
        w1.data == w2.data,
    ensures
        extract_spec(w1, action) == extract_spec(w2, action),
        w1.holds_nothing() == w2.holds_nothing(),
{
}

/// A response holds nothing exactly when its list and category list are
/// missing or empty and it has no `data`, whatever its code and message.
pub proof fn law_emptiness_looks_at_data_only(w: ApiResponseWrapper)
    ensures
        w.holds_nothing() <==> {
            &&& (w.list is None || w.list->0.len() == 0)
            &&& (w.class is None || w.class->0.len() == 0)
            &&& w.data is None
        },
{
}

/// `s` cut at each tab: the texts between tabs, in order (one text when `s`
/// holds no tab).
pub open spec fn split_at_tabs(s: Seq<char>) -> Seq<Seq<char>>
    decreases s.len(),
{
    if s.len() == 0 {
        seq![Seq::empty()]
    } else {
        let p = split_at_tabs(s.drop_last());
        if s.last() == '\t' {
            p.push(Seq::empty())
        } else {
            p.update(p.len() - 1, p.last().push(s.last()))
        }
    }
}

proof fn lemma_split_len(s: Seq<char>)
    ensures
        split_at_tabs(s).len() >= 1,
    decreases s.len(),
{
    if s.len() > 0 {
        lemma_split_len(s.drop_last());
    }
}

proof fn lemma_split_no_tab(a: Seq<char>, b: Seq<char>)
    requires
        count_char(b, '\t') == 0,
    ensures
        split_at_tabs(a + b) == split_at_tabs(a).update(
            split_at_tabs(a).len() - 1,
            split_at_tabs(a).last() + b,
        ),
    decreases b.len(),
{
    lemma_split_len(a);
    if b.len() == 0 {
        assert(a + b =~= a);
        assert(split_at_tabs(a).last() + b =~= split_at_tabs(a).last());
        assert(split_at_tabs(a).update(split_at_tabs(a).len() - 1, split_at_tabs(a).last())
            =~= split_at_tabs(a));
    } else {
        lemma_split_no_tab(a, b.drop_last());
        assert((a + b).drop_last() =~= a + b.drop_last());
        assert((a + b).last() == b.last());
        assert(b.last() != '\t');
        assert(split_at_tabs(a).last() + b =~= (split_at_tabs(a).last() + b.drop_last()).push(
            b.last(),
        ));
        assert(split_at_tabs(a + b) =~= split_at_tabs(a).update(
            split_at_tabs(a).len() - 1,
            split_at_tabs(a).last() + b,
        ));
    }
}

proof fn lemma_split_field(a: Seq<char>, b: Seq<char>)
    requires
        count_char(b, '\t') == 0,
    ensures
        split_at_tabs(a + tab() + b) == split_at_tabs(a).push(b),
{
    let at = a + tab();
    assert(at.drop_last() =~= a);
    assert(at.last() == '\t');
    assert(split_at_tabs(at) == split_at_tabs(a).push(Seq::empty()));
    lemma_split_no_tab(at, b);
    assert(Seq::<char>::empty() + b =~= b);
    assert(split_at_tabs(at + b) =~= split_at_tabs(a).push(b));
}

proof fn lemma_split_single(b: Seq<char>)
    requires
        count_char(b, '\t') == 0,
    ensures
        split_at_tabs(b) == seq![b],
{
    reveal_with_fuel(split_at_tabs, 2);
    lemma_split_no_tab(Seq::empty(), b);
    assert(Seq::<char>::empty() + b =~= b);
    assert(seq![Seq::<char>::empty()].update(0, Seq::<char>::empty() + b) =~= seq![b]);
}

/// Cutting a video's line at its tabs, when no printed field holds a tab,
/// gives its fields in this order: id, name, type name, time, remarks, blurb,
/// play source, picture, play URL, actors, director, area, language, year (a
/// missing field as the empty text).
pub proof fn law_video_line_columns_in_order(v: Video)
    requires
        video_fields_free_of(v, '\t'),
    ensures
        split_at_tabs(video_line(v)) == seq![
            v.vod_id@,
            v.vod_name@,
            v.type_label@,
            v.vod_time@,
            v.vod_remarks@,
            text_or_empty(v.vod_blurb),
            v.vod_play_from@,
            text_or_empty(v.vod_pic),
            text_or_empty(v.vod_play_url),
            text_or_empty(v.vod_actor),
            text_or_empty(v.vod_director),
            text_or_empty(v.vod_area),
            text_or_empty(v.vod_lang),
            text_or_empty(v.vod_year),
        ],
{
    let f = seq![
        v.vod_id@,
        v.vod_name@,
        v.type_label@,
        v.vod_time@,
        v.vod_remarks@,
        text_or_empty(v.vod_blurb),
        v.vod_play_from@,
        text_or_empty(v.vod_pic),
        text_or_empty(v.vod_play_url),
        text_or_empty(v.vod_actor),
        text_or_empty(v.vod_director),
        text_or_empty(v.vod_area),
        text_or_empty(v.vod_lang),
        text_or_empty(v.vod_year),
    ];
    lemma_split_single(f[0]);
    let s1 = f[0];
    let s2 = s1 + tab() + f[1];
    lemma_split_field(s1, f[1]);
    let s3 = s2 + tab() + f[2];
    lemma_split_field(s2, f[2]);
    let s4 = s3 + tab() + f[3];
    lemma_split_field(s3, f[3]);
    let s5 = s4 + tab() + f[4];
    lemma_split_field(s4, f[4]);
    let s6 = s5 + tab() + f[5];
    lemma_split_field(s5, f[5]);
    let s7 = s6 + tab() + f[6];
    lemma_split_field(s6, f[6]);
    let s8 = s7 + tab() + f[7];
    lemma_split_field(s7, f[7]);
    let s9 = s8 + tab() + f[8];
    lemma_split_field(s8, f[8]);
    let s10 = s9 + tab() + f[9];
    lemma_split_field(s9, f[9]);
    let s11 = s10 + tab() + f[10];
    lemma_split_field(s10, f[10]);
    let s12 = s11 + tab() + f[11];
    lemma_split_field(s11, f[11]);
    let s13 = s12 + tab() + f[12];
    lemma_split_field(s12, f[12]);
    let s14 = s13 + tab() + f[13];
    lemma_split_field(s13, f[13]);
    assert(s14 == video_line(v));
    assert(split_at_tabs(s14) =~= f);
}

/// Cutting a category's line at its tabs, when no printed field holds a tab,
/// gives its id, its name and its parent id, in this order.
pub proof fn law_class_line_columns_in_order(k: Class)
    requires
        class_fields_free_of(k, '\t'),
    ensures
        split_at_tabs(class_line(k)) == seq![k.type_id@, k.type_label@, k.type_pid@],
{
    lemma_split_single(k.type_id@);
    lemma_split_field(k.type_id@, k.type_label@);
    lemma_split_field(k.type_id@ + tab() + k.type_label@, k.type_pid@);
    assert(split_at_tabs(class_line(k)) =~= seq![k.type_id@, k.type_label@, k.type_pid@]);
}

/// The length of a member name and its fifth character, which tell the
/// names of a video's members apart.
pub open spec fn name_key(s: Seq<char>) -> (nat, char) {
    (s.len(), s[4])
}

/// The member names of a JSON object, in order.
pub open spec fn member_names(m: Seq<(Seq<char>, Option<Seq<char>>)>) -> Seq<Seq<char>> {
    m.map_values(|p: (Seq<char>, Option<Seq<char>>)| p.0)
}

/// The JSON object of a video has one member per field, each named after its
/// field and holding that field's value (`null` for a missing one), with no
/// name twice.
pub proof fn law_video_members_hold_their_fields(v: Video)
    ensures
        video_members(v).len() == 16,
        member_names(video_members(v)).no_duplicates(),
        video_members(v).contains(("vod_id"@, Some(v.vod_id@))),
        video_members(v).contains(("vod_name"@, Some(v.vod_name@))),
        video_members(v).contains(("type_id"@, Some(v.type_id@))),
        video_members(v).contains(("type_name"@, Some(v.type_label@))),
        video_members(v).contains(("vod_en"@, v.vod_en.deep_view())),
        video_members(v).contains(("vod_time"@, Some(v.vod_time@))),
        video_members(v).contains(("vod_remarks"@, Some(v.vod_remarks@))),
        video_members(v).contains(("vod_blurb"@, v.vod_blurb.deep_view())),
        video_members(v).contains(("vod_play_from"@, Some(v.vod_play_from@))),
        video_members(v).contains(("vod_pic"@, v.vod_pic.deep_view())),
        video_members(v).contains(("vod_play_url"@, v.vod_play_url.deep_view())),
        video_members(v).contains(("vod_actor"@, v.vod_actor.deep_view())),
        video_members(v).contains(("vod_director"@, v.vod_director.deep_view())),
        video_members(v).contains(("vod_area"@, v.vod_area.deep_view())),
        video_members(v).contains(("vod_lang"@, v.vod_lang.deep_view())),
        video_members(v).contains(("vod_year"@, v.vod_year.deep_view())),
{
    let m = video_members(v);
    assert(m[0] == ("vod_id"@, Some(v.vod_id@)));
    assert(m[1] == ("vod_name"@, Some(v.vod_name@)));
    assert(m[2] == ("type_id"@, Some(v.type_id@)));
    assert(m[3] == ("type_name"@, Some(v.type_label@)));
    assert(m[4] == ("vod_en"@, v.vod_en.deep_view()));
    assert(m[5] == ("vod_time"@, Some(v.vod_time@)));
    assert(m[6] == ("vod_remarks"@, Some(v.vod_remarks@)));
    assert(m[7] == ("vod_blurb"@, v.vod_blurb.deep_view()));
    assert(m[8] == ("vod_play_from"@, Some(v.vod_play_from@)));
    assert(m[9] == ("vod_pic"@, v.vod_pic.deep_view()));
    assert(m[10] == ("vod_play_url"@, v.vod_play_url.deep_view()));
    assert(m[11] == ("vod_actor"@, v.vod_actor.deep_view()));
    assert(m[12] == ("vod_director"@, v.vod_director.deep_view()));
    assert(m[13] == ("vod_area"@, v.vod_area.deep_view()));
    assert(m[14] == ("vod_lang"@, v.vod_lang.deep_view()));
    assert(m[15] == ("vod_year"@, v.vod_year.deep_view()));
    reveal_strlit("vod_id");
    reveal_strlit("vod_name");
    reveal_strlit("type_id");
    reveal_strlit("type_name");
    reveal_strlit("vod_en");
    reveal_strlit("vod_time");
    reveal_strlit("vod_remarks");
    reveal_strlit("vod_blurb");
    reveal_strlit("vod_play_from");
    reveal_strlit("vod_pic");
    reveal_strlit("vod_play_url");
    reveal_strlit("vod_actor");
    reveal_strlit("vod_director");
    reveal_strlit("vod_area");
    reveal_strlit("vod_lang");
    reveal_strlit("vod_year");
    let n = member_names(m);
    assert(n =~= seq![
        "vod_id"@, "vod_name"@, "type_id"@, "type_name"@, "vod_en"@, "vod_time"@,
        "vod_remarks"@, "vod_blurb"@, "vod_play_from"@, "vod_pic"@, "vod_play_url"@,
        "vod_actor"@, "vod_director"@, "vod_area"@, "vod_lang"@, "vod_year"@,
    ]);
    let keys = n.map_values(|s: Seq<char>| name_key(s));
    let expected: Seq<(nat, char)> = seq![
        (6nat, 'i'), (8nat, 'n'), (7nat, '_'), (9nat, '_'), (6nat, 'e'), (8nat, 't'),
        (11nat, 'r'), (9nat, 'b'), (13nat, 'p'), (7nat, 'p'), (12nat, 'p'), (9nat, 'a'),
        (12nat, 'd'), (8nat, 'a'), (8nat, 'l'), (8nat, 'y'),
    ];
    assert(keys =~= expected);
    assert forall|i: int, j: int| 0 <= i < n.len() && 0 <= j < n.len() && i != j implies n[i]
        != n[j] by {
        assert(keys[i] == name_key(n[i]));
        assert(keys[j] == name_key(n[j]));
        assert(expected[i] != expected[j]);
    }
}

/// The JSON object of a category has its three members, each named after its
/// field and holding that field's value, with no name twice.
pub proof fn law_class_members_hold_their_fields(k: Class)
    ensures
        class_members(k).len() == 3,
        member_names(class_members(k)).no_duplicates(),
        class_members(k).contains(("type_id"@, Some(k.type_id@))),
        class_members(k).contains(("type_name"@, Some(k.type_label@))),
        class_members(k).contains(("type_pid"@, Some(k.type_pid@))),
{
    let m = class_members(k);
    assert(m[0] == ("type_id"@, Some(k.type_id@)));
    assert(m[1] == ("type_name"@, Some(k.type_label@)));
    assert(m[2] == ("type_pid"@, Some(k.type_pid@)));
    reveal_strlit("type_id");
    reveal_strlit("type_name");
    reveal_strlit("type_pid");
    let n = member_names(m);
    assert(n =~= seq!["type_id"@, "type_name"@, "type_pid"@]);
    assert forall|i: int, j: int| 0 <= i < n.len() && 0 <= j < n.len() && i != j implies n[i]
        != n[j] by {
        if n[i] == n[j] {
            assert(n[i].len() == n[j].len());
            assert(forall|k: int| 0 <= k < n[i].len() ==> n[i][k] == n[j][k]);
        }
    }
}

} // verus!
