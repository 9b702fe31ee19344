use vstd::prelude::*;

use crate::models::{
    text_or_empty, ApiResponseWrapper, Class, OutputData, OutputFormat, OutputView, Video,
};

verus! {

broadcast use vstd::array::group_array_axioms;

/// The response handler: chooses what to print and renders it.
pub struct Handler;

/// A JSON object whose members are texts or `null`, in the order given.
pub open spec fn json_members_view(
    fields: Seq<(String, Option<String>)>,
) -> Seq<(Seq<char>, Option<Seq<char>>)> {
    fields.map_values(|f: (String, Option<String>)| (f.0@, f.1.deep_view()))
}

/// A JSON document as the handler prints it: one object, or an array of objects.
pub ghost enum JsonDocView {
    Object(Seq<(Seq<char>, Option<Seq<char>>)>),
    Array(Seq<Seq<(Seq<char>, Option<Seq<char>>)>>),
}

/// The pretty-printed JSON text of a document (two-space indent, one member
/// or element per line), as the JSON encoder writes it.
pub uninterp spec fn pretty_json(doc: JsonDocView) -> Seq<char>;

/// A failure to render the output.
#[derive(Debug)]
pub enum FormatError {
    /// The JSON encoder failed.
    Json(serde_json::Error),
}

/// Declares the JSON encoder's error type.
#[verifier::external_type_specification]
#[verifier::external_body]
pub struct ExJsonError(serde_json::Error);

/// Renders one JSON object with `serde_json::to_string_pretty`, after
/// collecting the members into a `serde_json::Value` (a missing text becomes
/// `null`). Trusted: the call succeeds and the text is `pretty_json` of the
/// object. The encoder documents two causes of failure, a `Serialize` impl
/// that fails or a map with non-string keys; `Value`'s impl only passes on
/// the errors of the serializer, its map keys are strings, and the pretty
/// serializer writes into a `Vec<u8>`, so neither cause can arise here.
#[verifier::external_body]
fn render_json_object(fields: &Vec<(String, Option<String>)>) -> (r: Result<String, serde_json::Error>)
    ensures
        r is Ok,
        r matches Ok(s) ==> s@ == pretty_json(JsonDocView::Object(json_members_view(fields@))),
{
    let value: serde_json::Value = fields.iter().cloned().collect();
    serde_json::to_string_pretty(&value)
}

/// Renders a JSON array of objects with `serde_json::to_string_pretty`, after
/// collecting each object's members into a `serde_json::Value`. Trusted: the
/// call succeeds and the text is `pretty_json` of the array, for the reason
/// given at `render_json_object`.
#[verifier::external_body]
fn render_json_array(objects: &Vec<Vec<(String, Option<String>)>>) -> (r: Result<String, serde_json::Error>)
    ensures
        r is Ok,
        r matches Ok(s) ==> s@ == pretty_json(
            JsonDocView::Array(objects@.map_values(|o: Vec<(String, Option<String>)>| json_members_view(o@))),
        ),
{
    let value: serde_json::Value = objects.iter().map(
        |fields| fields.iter().cloned().collect::<serde_json::Value>(),
    ).collect();
    serde_json::to_string_pretty(&value)
}

pub open spec fn tab() -> Seq<char> {
    seq!['\t']
}

pub open spec fn newline() -> Seq<char> {
    seq!['\n']
}

/// The tab-separated line of a video (without the line break).
pub open spec fn video_line(v: Video) -> Seq<char> {
    v.vod_id@ + tab() + v.vod_name@ + tab() + v.type_label@ + tab() + v.vod_time@ + tab()
        + v.vod_remarks@ + tab() + text_or_empty(v.vod_blurb) + tab() + v.vod_play_from@ + tab()
        + text_or_empty(v.vod_pic) + tab() + text_or_empty(v.vod_play_url) + tab()
        + text_or_empty(v.vod_actor) + tab() + text_or_empty(v.vod_director) + tab()
        + text_or_empty(v.vod_area) + tab() + text_or_empty(v.vod_lang) + tab()
        + text_or_empty(v.vod_year)
}

/// The tab-separated line of a category (without the line break).
pub open spec fn class_line(c: Class) -> Seq<char> {
    c.type_id@ + tab() + c.type_label@ + tab() + c.type_pid@
}

/// One line per video, each ended by a line break.
pub open spec fn video_lines(vs: Seq<Video>) -> Seq<char>
    decreases vs.len(),
{
    if vs.len() == 0 {
        Seq::empty()
    } else {
        video_lines(vs.drop_last()) + video_line(vs.last()) + newline()
    }
}

/// One line per category, each ended by a line break.
pub open spec fn class_lines(cs: Seq<Class>) -> Seq<char>
    decreases cs.len(),
{
    if cs.len() == 0 {
        Seq::empty()
    } else {
        class_lines(cs.drop_last()) + class_line(cs.last()) + newline()
    }
}

/// The tab-separated rendering of an output.
pub open spec fn tabular_text(d: OutputView) -> Seq<char> {
    match d {
        OutputView::Videos(vs) => video_lines(vs),
        OutputView::Classes(cs) => class_lines(cs),
        OutputView::Video(v) => video_line(v) + newline(),
        OutputView::Class(c) => class_line(c) + newline(),
    }
}

/// The members of a video's JSON object, in field order.
pub open spec fn video_members(v: Video) -> Seq<(Seq<char>, Option<Seq<char>>)> {
    seq![
        ("vod_id"@, Some(v.vod_id@)),
        ("vod_name"@, Some(v.vod_name@)),
        ("type_id"@, Some(v.type_id@)),
        ("type_name"@, Some(v.type_label@)),
        ("vod_en"@, v.vod_en.deep_view()),
        ("vod_time"@, Some(v.vod_time@)),
        ("vod_remarks"@, Some(v.vod_remarks@)),
        ("vod_blurb"@, v.vod_blurb.deep_view()),
        ("vod_play_from"@, Some(v.vod_play_from@)),
        ("vod_pic"@, v.vod_pic.deep_view()),
        ("vod_play_url"@, v.vod_play_url.deep_view()),
        ("vod_actor"@, v.vod_actor.deep_view()),
        ("vod_director"@, v.vod_director.deep_view()),
        ("vod_area"@, v.vod_area.deep_view()),
        ("vod_lang"@, v.vod_lang.deep_view()),
        ("vod_year"@, v.vod_year.deep_view()),
    ]
}

/// The members of a category's JSON object, in field order.
pub open spec fn class_members(c: Class) -> Seq<(Seq<char>, Option<Seq<char>>)> {
    seq![
        ("type_id"@, Some(c.type_id@)),
        ("type_name"@, Some(c.type_label@)),
        ("type_pid"@, Some(c.type_pid@)),
    ]
}

/// The JSON document printed for an output.
pub open spec fn json_doc(d: OutputView) -> JsonDocView {
    match d {
        OutputView::Videos(vs) => JsonDocView::Array(vs.map_values(|v: Video| video_members(v))),
        OutputView::Classes(cs) => JsonDocView::Array(cs.map_values(|c: Class| class_members(c))),
        OutputView::Video(v) => JsonDocView::Object(video_members(v)),
        OutputView::Class(c) => JsonDocView::Object(class_members(c)),
    }
}

/// What is printed for a response and an action: for `class`, the category
/// list, else the single category in `data`, else the video list, else no
/// categories; for any other action, the video list, else the single video
/// in `data`, else the category list, else no videos.
pub open spec fn extract_spec(w: ApiResponseWrapper, action: Seq<char>) -> OutputView {
    if action == "class"@ {
        if w.class is Some {
            OutputView::Classes(w.class->0@)
        } else if w.class_in_data() is Some {
            OutputView::Class(w.class_in_data()->0)
        } else if w.list is Some {
            OutputView::Videos(w.list->0@)
        } else {
            OutputView::Classes(Seq::empty())
        }
    } else {
        if w.list is Some {
            OutputView::Videos(w.list->0@)
        } else if w.video_in_data() is Some {
            OutputView::Video(w.video_in_data()->0)
        } else if w.class is Some {
            OutputView::Classes(w.class->0@)
        } else {
            OutputView::Videos(Seq::empty())
        }
    }
}

fn is_class_action(action: &str) -> (b: bool)
    ensures
        b == (action@ == "class"@),
{
    let given = String::from_str(action);
    let class_action = String::from_str("class");
    given == class_action
}

fn text_or_blank(o: &Option<String>) -> (r: &str)
    ensures
        r@ == text_or_empty(*o),
{
    match o {
        Some(s) => s.as_str(),
        None => {
            proof { reveal_strlit(""); }
            ""
        },
    }
}

fn member(name: &str, value: &String) -> (r: (String, Option<String>))
    ensures
        r.0@ == name@,
        r.1.deep_view() == Some(value@),
{
    (String::from_str(name), Some(value.clone()))
}

fn optional_member(name: &str, value: &Option<String>) -> (r: (String, Option<String>))
    ensures
        r.0@ == name@,
        r.1.deep_view() == value.deep_view(),
{
    let v = match value {
        Some(s) => Some(s.clone()),
        None => None,
    };
    (String::from_str(name), v)
}

impl Handler {
    /// Chooses what to print for a response and an action.
    pub fn extract_data<'a>(wrapper: &'a ApiResponseWrapper, action: &str) -> (r: OutputData<'a>)
        ensures
            r@ == extract_spec(*wrapper, action@),
    {
        if is_class_action(action) {
            if let Some(classes) = &wrapper.class {
                OutputData::Classes(classes.as_slice())
            } else if let Some(class) = wrapper.try_class_data() {
                OutputData::Class(Box::new(class))
            } else if let Some(videos) = &wrapper.list {
                OutputData::Videos(videos.as_slice())
            } else {
                let none: &[Class] = &[];
                assert(none@ =~= Seq::<Class>::empty());
                OutputData::Classes(none)
            }
        } else {
            if let Some(videos) = &wrapper.list {
                OutputData::Videos(videos.as_slice())
            } else if let Some(video) = wrapper.try_video_data() {
                OutputData::Video(Box::new(video))
            } else if let Some(classes) = &wrapper.class {
                OutputData::Classes(classes.as_slice())
            } else {
                let none: &[Video] = &[];
                assert(none@ =~= Seq::<Video>::empty());
                OutputData::Videos(none)
            }
        }
    }

    /// Renders an output in the given format.
    pub fn format_output(data: OutputData, format: OutputFormat) -> (r: Result<String, FormatError>)
        ensures
            format is Tabular ==> (r matches Ok(s) && s@ == tabular_text(data@)),
            format is Json ==> (r matches Ok(s) && s@ == pretty_json(json_doc(data@))),
    {
        match format {
            OutputFormat::Tabular => Ok(Self::format_tabular(data)),
            OutputFormat::Json => Self::format_json(data),
        }
    }

    /// The tab-separated line of a video.
    pub fn format_video_tabular(video: &Video) -> (r: String)
        ensures
            r@ == video_line(*video),
    {
        proof { reveal_strlit("\t"); }
        let mut s = video.vod_id.clone();
        s.append("\t");
        s.append(video.vod_name.as_str());
        s.append("\t");
        s.append(video.type_label.as_str());
        s.append("\t");
        s.append(video.vod_time.as_str());
        s.append("\t");
        s.append(video.vod_remarks.as_str());
        s.append("\t");
        s.append(text_or_blank(&video.vod_blurb));
        s.append("\t");
        s.append(video.vod_play_from.as_str());
        s.append("\t");
        s.append(text_or_blank(&video.vod_pic));
        s.append("\t");
        s.append(text_or_blank(&video.vod_play_url));
        s.append("\t");
        s.append(text_or_blank(&video.vod_actor));
        s.append("\t");
        s.append(text_or_blank(&video.vod_director));
        s.append("\t");
        s.append(text_or_blank(&video.vod_area));
        s.append("\t");
        s.append(text_or_blank(&video.vod_lang));
        s.append("\t");
        s.append(text_or_blank(&video.vod_year));
        assert(s@ =~= video_line(*video));
        s
    }

    /// The tab-separated line of a category.
    pub fn format_class_tabular(class: &Class) -> (r: String)
        ensures
            r@ == class_line(*class),
    {
        proof { reveal_strlit("\t"); }
        let mut s = class.type_id.clone();
        s.append("\t");
        s.append(class.type_label.as_str());
        s.append("\t");
        s.append(class.type_pid.as_str());
        assert(s@ =~= class_line(*class));
        s
    }

    /// The tab-separated rendering: one line per record, each ended by a line break.
    pub fn format_tabular(data: OutputData) -> (r: String)
        ensures
            r@ == tabular_text(data@),
    {
        proof { reveal_strlit("\n"); }
        match data {
            OutputData::Videos(videos) => {
                let mut out = String::new();
                let n = videos.len();
                for i in 0..n
                    invariant
                        n == videos@.len(),
                        out@ == video_lines(videos@.take(i as int)),
                {
                    proof { reveal_strlit("\n"); }
                    let line = Self::format_video_tabular(&videos[i]);
                    out.append(line.as_str());
                    out.append("\n");
                    assert(videos@.take(i + 1).drop_last() =~= videos@.take(i as int));
                    assert(videos@.take(i + 1).last() == videos@[i as int]);
                    assert(out@ =~= video_lines(videos@.take(i + 1)));
                }
                assert(videos@.take(n as int) =~= videos@);
                out
            },
            OutputData::Classes(classes) => {
                let mut out = String::new();
                let n = classes.len();
                for i in 0..n
                    invariant
                        n == classes@.len(),
                        out@ == class_lines(classes@.take(i as int)),
                {
                    proof { reveal_strlit("\n"); }
                    let line = Self::format_class_tabular(&classes[i]);
                    out.append(line.as_str());
                    out.append("\n");
                    assert(classes@.take(i + 1).drop_last() =~= classes@.take(i as int));
                    assert(classes@.take(i + 1).last() == classes@[i as int]);
                    assert(out@ =~= class_lines(classes@.take(i + 1)));
                }
                assert(classes@.take(n as int) =~= classes@);
                out
            },
            OutputData::Video(video) => {
                let mut out = Self::format_video_tabular(&video);
                out.append("\n");
                out
            },
            OutputData::Class(class) => {
                let mut out = Self::format_class_tabular(&class);
                out.append("\n");
                out
            },
        }
    }

    /// The JSON members of a video, in field order.
    pub fn video_json_members(v: &Video) -> (r: Vec<(String, Option<String>)>)
        ensures
            json_members_view(r@) == video_members(*v),
    {
        let mut r: Vec<(String, Option<String>)> = Vec::new();
        r.push(member("vod_id", &v.vod_id));
        r.push(member("vod_name", &v.vod_name));
        r.push(member("type_id", &v.type_id));
        r.push(member("type_name", &v.type_label));
        r.push(optional_member("vod_en", &v.vod_en));
        r.push(member("vod_time", &v.vod_time));
        r.push(member("vod_remarks", &v.vod_remarks));
        r.push(optional_member("vod_blurb", &v.vod_blurb));
        r.push(member("vod_play_from", &v.vod_play_from));
        r.push(optional_member("vod_pic", &v.vod_pic));
        r.push(optional_member("vod_play_url", &v.vod_play_url));
        r.push(optional_member("vod_actor", &v.vod_actor));
        r.push(optional_member("vod_director", &v.vod_director));
        r.push(optional_member("vod_area", &v.vod_area));
        r.push(optional_member("vod_lang", &v.vod_lang));
        r.push(optional_member("vod_year", &v.vod_year));
        assert(json_members_view(r@) =~= video_members(*v));
        r
    }

    /// The JSON members of a category, in field order.
    pub fn class_json_members(c: &Class) -> (r: Vec<(String, Option<String>)>)
        ensures
            json_members_view(r@) == class_members(*c),
    {
        let mut r: Vec<(String, Option<String>)> = Vec::new();
        r.push(member("type_id", &c.type_id));
        r.push(member("type_name", &c.type_label));
        r.push(member("type_pid", &c.type_pid));
        assert(json_members_view(r@) =~= class_members(*c));
        r
    }

    /// The pretty-printed JSON rendering: an array for a list, an object for a single record.
    pub fn format_json(data: OutputData) -> (r: Result<String, FormatError>)
        ensures
            r matches Ok(s) && s@ == pretty_json(json_doc(data@)),
    {
        let rendered = match data {
            OutputData::Videos(videos) => {
                let mut objects: Vec<Vec<(String, Option<String>)>> = Vec::new();
                let n = videos.len();
                for i in 0..n
                    invariant
                        n == videos@.len(),
                        objects@.len() == i,
                        forall|j: int|
                            0 <= j < i ==> json_members_view(#[trigger] objects@[j]@) == video_members(videos@[j]),
                {
                    objects.push(Self::video_json_members(&videos[i]));
                }
                assert(objects@.map_values(|o: Vec<(String, Option<String>)>| json_members_view(o@))
                    =~= videos@.map_values(|v: Video| video_members(v)));
                render_json_array(&objects)
            },
            OutputData::Classes(classes) => {
                let mut objects: Vec<Vec<(String, Option<String>)>> = Vec::new();
                let n = classes.len();
                for i in 0..n
                    invariant
                        n == classes@.len(),
                        objects@.len() == i,
                        forall|j: int|
                            0 <= j < i ==> json_members_view(#[trigger] objects@[j]@) == class_members(classes@[j]),
                {
                    objects.push(Self::class_json_members(&classes[i]));
                }
                assert(objects@.map_values(|o: Vec<(String, Option<String>)>| json_members_view(o@))
                    =~= classes@.map_values(|c: Class| class_members(c)));
                render_json_array(&objects)
            },
            OutputData::Video(video) => render_json_object(&Self::video_json_members(&video)),
            OutputData::Class(class) => render_json_object(&Self::class_json_members(&class)),
        };
        match rendered {
            Ok(s) => Ok(s),
            Err(e) => Err(FormatError::Json(e)),
        }
    }
}

} // verus!
