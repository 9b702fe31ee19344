use vstd::prelude::*;

use crate::text::{decimal_text, i32_to_decimal};

verus! {

/// An error reported by the API itself (a `code` other than 0 or 1).
#[derive(Debug, Clone)]
pub struct ApiError {
    pub code: i32,
    pub msg: String,
}

/// One video record of the API.
#[derive(Debug, Clone)]
pub struct Video {
    pub vod_id: String,
    pub vod_name: String,
    pub type_id: String,
    pub type_label: String,
    pub vod_en: Option<String>,
    pub vod_time: String,
    pub vod_remarks: String,
    pub vod_blurb: Option<String>,
    pub vod_play_from: String,
    pub vod_pic: Option<String>,
    pub vod_play_url: Option<String>,
    pub vod_actor: Option<String>,
    pub vod_director: Option<String>,
    pub vod_area: Option<String>,
    pub vod_lang: Option<String>,
    pub vod_year: Option<String>,
}

/// One category record of the API.
#[derive(Debug, Clone)]
pub struct Class {
    pub type_id: String,
    pub type_label: String,
    pub type_pid: String,
}

/// A record nested under a `data` member.
#[derive(Debug, Clone)]
pub struct DataResponse<T> {
    pub data: T,
}

/// What the free-form `data` member of a response decodes to, each way the
/// handler reads it: as a video or a category directly, or as one nested
/// under a further `data` member. A reading that does not fit is `None`.
#[derive(Debug, Clone)]
pub struct DataPayload {
    pub video: Option<Video>,
    pub wrapped_video: Option<DataResponse<Video>>,
    pub class: Option<Class>,
    pub wrapped_class: Option<DataResponse<Class>>,
}

/// A decoded API response. Every member may be missing.
#[derive(Debug, Clone)]
pub struct ApiResponseWrapper {
    pub list: Option<Vec<Video>>,
    pub class: Option<Vec<Class>>,
    pub data: Option<DataPayload>,
    pub code: Option<i32>,
    pub msg: Option<String>,
}

/// How the output is printed.
#[derive(Debug, Clone)]
pub enum OutputFormat {
    Tabular,
    Json,
}

/// What is printed for a response.
#[derive(Debug)]
pub enum OutputData<'a> {
    Videos(&'a [Video]),
    Classes(&'a [Class]),
    Video(Box<Video>),
    Class(Box<Class>),
}

/// The mathematical content of an [`OutputData`].
pub ghost enum OutputView {
    Videos(Seq<Video>),
    Classes(Seq<Class>),
    Video(Video),
    Class(Class),
}

impl<'a> View for OutputData<'a> {
    type V = OutputView;

    open spec fn view(&self) -> OutputView {
        match self {
            OutputData::Videos(v) => OutputView::Videos(v@),
            OutputData::Classes(c) => OutputView::Classes(c@),
            OutputData::Video(v) => OutputView::Video(**v),
            OutputData::Class(c) => OutputView::Class(**c),
        }
    }
}

/// `Some(s)` read as `s`, `None` as the empty text.
pub open spec fn text_or_empty(o: Option<String>) -> Seq<char> {
    match o {
        Some(s) => s@,
        None => Seq::empty(),
    }
}

impl Video {
    /// A copy of the record, field by field.
    pub fn duplicate(&self) -> (r: Video)
        ensures
            r == *self,
    {
        Video {
            vod_id: self.vod_id.clone(),
            vod_name: self.vod_name.clone(),
            type_id: self.type_id.clone(),
            type_label: self.type_label.clone(),
            vod_en: clone_text(&self.vod_en),
            vod_time: self.vod_time.clone(),
            vod_remarks: self.vod_remarks.clone(),
            vod_blurb: clone_text(&self.vod_blurb),
            vod_play_from: self.vod_play_from.clone(),
            vod_pic: clone_text(&self.vod_pic),
            vod_play_url: clone_text(&self.vod_play_url),
            vod_actor: clone_text(&self.vod_actor),
            vod_director: clone_text(&self.vod_director),
            vod_area: clone_text(&self.vod_area),
            vod_lang: clone_text(&self.vod_lang),
            vod_year: clone_text(&self.vod_year),
        }
    }
}

impl Class {
    /// A copy of the record, field by field.
    pub fn duplicate(&self) -> (r: Class)
        ensures
            r == *self,
    {
        Class {
            type_id: self.type_id.clone(),
            type_label: self.type_label.clone(),
            type_pid: self.type_pid.clone(),
        }
    }
}

fn clone_text(o: &Option<String>) -> (r: Option<String>)
    ensures
        r == *o,
{
    match o {
        Some(s) => Some(s.clone()),
        None => None,
    }
}

/// The text shown for an API error.
pub open spec fn api_error_text(code: i32, msg: Seq<char>) -> Seq<char> {
    "API error (code="@ + decimal_text(code as int) + "): "@ + msg
}

impl ApiError {
    /// The message of the error: `API error (code=<code>): <msg>`.
    pub fn message(&self) -> (r: String)
        ensures
            r@ == api_error_text(self.code, self.msg@),
    {
        let mut s = String::from_str("API error (code=");
        let digits = i32_to_decimal(self.code);
        s.append(digits.as_str());
        s.append("): ");
        s.append(self.msg.as_str());
        s
    }
}

/// The message given to an API error that carries none.
pub open spec fn unknown_error_text() -> Seq<char> {
    "Unknown error"@
}

impl ApiResponseWrapper {
    /// The response reports an error: it has a code, and the code is neither 0 nor 1.
    pub open spec fn reports_error(self) -> bool {
        self.code matches Some(c) && c != 0 && c != 1
    }

    /// The response holds nothing: no list or an empty one, no categories or
    /// none listed, and no `data` member.
    pub open spec fn holds_nothing(self) -> bool {
        &&& (self.list matches Some(v) ==> v@.len() == 0)
        &&& (self.class matches Some(c) ==> c@.len() == 0)
        &&& self.data is None
    }

    /// The single video that `data` holds: read directly, else nested under `data`.
    pub open spec fn video_in_data(self) -> Option<Video> {
        match self.data {
            Some(d) => match d.video {
                Some(v) => Some(v),
                None => match d.wrapped_video {
                    Some(w) => Some(w.data),
                    None => None,
                },
            },
            None => None,
        }
    }

    /// The single category that `data` holds: read directly, else nested under `data`.
    pub open spec fn class_in_data(self) -> Option<Class> {
        match self.data {
            Some(d) => match d.class {
                Some(c) => Some(c),
                None => match d.wrapped_class {
                    Some(w) => Some(w.data),
                    None => None,
                },
            },
            None => None,
        }
    }

    /// Checks whether the response reports an error.
    pub fn check_error(&self) -> (r: Result<(), ApiError>)
        ensures
            r is Ok <==> !self.reports_error(),
            r matches Err(e) ==> {
                &&& self.code == Some(e.code)
                &&& e.msg@ == match self.msg {
                    Some(m) => m@,
                    None => unknown_error_text(),
                }
            },
    {
        if let Some(code) = self.code {
            if code != 1 && code != 0 {
                let msg = match &self.msg {
                    Some(m) => m.clone(),
                    None => String::from_str("Unknown error"),
                };
                return Err(ApiError { code, msg });
            }
        }
        Ok(())
    }

    /// Checks whether the response holds no data.
    pub fn is_empty(&self) -> (r: bool)
        ensures
            r == self.holds_nothing(),
    {
        let no_list = match &self.list {
            Some(v) => v.len() == 0,
            None => true,
        };
        let no_class = match &self.class {
            Some(c) => c.len() == 0,
            None => true,
        };
        no_list && no_class && self.data.is_none()
    }

    /// The single video that `data` holds, if any.
    pub fn try_video_data(&self) -> (r: Option<Video>)
        ensures
            r == self.video_in_data(),
    {
        match &self.data {
            Some(d) => match &d.video {
                Some(v) => Some(v.duplicate()),
                None => match &d.wrapped_video {
                    Some(w) => Some(w.data.duplicate()),
                    None => None,
                },
            },
            None => None,
        }
    }

    /// The single category that `data` holds, if any.
    pub fn try_class_data(&self) -> (r: Option<Class>)
        ensures
            r == self.class_in_data(),
    {
        match &self.data {
            Some(d) => match &d.class {
                Some(c) => Some(c.duplicate()),
                None => match &d.wrapped_class {
                    Some(w) => Some(w.data.duplicate()),
                    None => None,
                },
            },
            None => None,
        }
    }
}

} // verus!
