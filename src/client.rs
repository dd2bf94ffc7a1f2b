//! The API client's configuration and the request that each call makes.
use vstd::prelude::*;

use crate::error::RequestError;
use crate::json::{ids_to_json, json_string_array};
use crate::text::{decimal, push_char, to_decimal};
use crate::url::{joined, join_all, pair_views, with_query, with_query_spec};
use crate::validate::{
    check_id_slug, check_id_slugs, is_slug, lemma_slugs_result_first_failure, slug_result,
    slugs_result, str_views,
};

verus! {

/// The root of the API that requests go to by default.
pub const API_BASE_URL: &'static str = "https://api.modrinth.com/v2/";

/// An HTTP method.
#[derive(Debug, Clone, Copy, PartialEq, Eq, Structural)]
pub enum Method {
    Get,
    Post,
    Delete,
}

/// A request to send: method, full URL, and for a `Post` its body and content type.
#[derive(Debug)]
pub struct Request {
    pub method: Method,
    pub url: String,
    pub content_type: Option<String>,
    pub body: Vec<u8>,
}

/// What a [`Request`] holds, as mathematical values.
pub struct RequestView {
    pub method: Method,
    pub url: Seq<char>,
    pub content_type: Option<Seq<char>>,
    pub body: Seq<u8>,
}

/// The view of an optional string.
pub open spec fn opt_view(s: Option<String>) -> Option<Seq<char>> {
    match s {
        Some(t) => Some(t@),
        None => None,
    }
}

impl View for Request {
    type V = RequestView;

    open spec fn view(&self) -> RequestView {
        RequestView {
            method: self.method,
            url: self.url@,
            content_type: opt_view(self.content_type),
            body: self.body@,
        }
    }
}

/// A `Get` of `url`.
pub open spec fn get_view(url: Seq<char>) -> RequestView {
    RequestView { method: Method::Get, url, content_type: None, body: seq![] }
}

/// The image formats that a gallery accepts.
#[derive(Debug, Clone, Copy, PartialEq, Eq, Structural)]
pub enum FileExt {
    PNG,
    JPG,
    JPEG,
    BMP,
    GIF,
    WebP,
    SVG,
    SVGZ,
    RGB,
}

impl FileExt {
    /// The format's lowercase file extension.
    pub open spec fn name(self) -> Seq<char> {
        match self {
            FileExt::PNG => "png"@,
            FileExt::JPG => "jpg"@,
            FileExt::JPEG => "jpeg"@,
            FileExt::BMP => "bmp"@,
            FileExt::GIF => "gif"@,
            FileExt::WebP => "webp"@,
            FileExt::SVG => "svg"@,
            FileExt::SVGZ => "svgz"@,
            FileExt::RGB => "rgb"@,
        }
    }

    /// The format's lowercase file extension.
    pub fn as_str(&self) -> (r: &'static str)
        ensures
            r@ == self.name(),
    {
        match self {
            FileExt::PNG => "png",
            FileExt::JPG => "jpg",
            FileExt::JPEG => "jpeg",
            FileExt::BMP => "bmp",
            FileExt::GIF => "gif",
            FileExt::WebP => "webp",
            FileExt::SVG => "svg",
            FileExt::SVGZ => "svgz",
            FileExt::RGB => "rgb",
        }
    }
}

/// `true` or `false`.
pub open spec fn bool_text(b: bool) -> Seq<char> {
    if b {
        "true"@
    } else {
        "false"@
    }
}

/// The pair `(key, value)` if there is a value, else nothing.
pub open spec fn optional_pair(key: Seq<char>, value: Option<Seq<char>>) -> Seq<(Seq<char>, Seq<char>)> {
    match value {
        Some(v) => seq![(key, v)],
        None => seq![],
    }
}

/// The query parameters of a gallery upload, in order.
pub open spec fn gallery_query(
    ext: FileExt,
    featured: bool,
    title: Option<Seq<char>>,
    description: Option<Seq<char>>,
) -> Seq<(Seq<char>, Seq<char>)> {
    seq![("ext"@, ext.name()), ("featured"@, bool_text(featured))] + optional_pair("title"@, title)
        + optional_pair("description"@, description)
}

/// The user agent made of an application name, an optional version and an
/// optional contact: `name`, `name/version`, `name (contact)` or
/// `name/version (contact)`.
pub open spec fn user_agent_of(
    name: Seq<char>,
    version: Option<Seq<char>>,
    contact: Option<Seq<char>>,
) -> Seq<char> {
    name + match version {
        Some(v) => seq!['/'] + v,
        None => seq![],
    } + match contact {
        Some(c) => " ("@ + c + ")"@,
        None => seq![],
    }
}

/// The view of an optional string slice.
pub open spec fn opt_str_view(s: Option<&str>) -> Option<Seq<char>> {
    match s {
        Some(t) => Some(t@),
        None => None,
    }
}

/// The client's fixed configuration: where requests go, the user agent they
/// carry, and an optional authorisation token.
#[derive(Debug)]
pub struct Ferinth {
    pub base_url: String,
    pub user_agent: String,
    pub token: Option<String>,
}

impl Ferinth {
    /// The URL of `project/{id}` followed by `tail`, under this client's base.
    pub open spec fn project_url(&self, id: Seq<char>, tail: Seq<Seq<char>>) -> Seq<char> {
        joined(self.base_url@, seq!["project"@, id] + tail)
    }

    /// A client of the API at [`API_BASE_URL`], identified by `name`, an
    /// optional `version` and an optional `contact`, and carrying `token`
    /// when one is given.
    pub fn new(name: &str, version: Option<&str>, contact: Option<&str>, token: Option<&str>) -> (r:
        Ferinth)
        ensures
            r.base_url@ == API_BASE_URL@,
            r.user_agent@ == user_agent_of(name@, opt_str_view(version), opt_str_view(contact)),
            opt_view(r.token) == opt_str_view(token),
    {
        let mut user_agent = String::from_str(name);
        match version {
            Some(v) => {
                push_char(&mut user_agent, '/');
                user_agent.append(v);
            },
            None => {},
        }
        match contact {
            Some(c) => {
                user_agent.append(" (");
                user_agent.append(c);
                user_agent.append(")");
            },
            None => {},
        }
        proof {
            assert(user_agent@ =~= user_agent_of(name@, opt_str_view(version), opt_str_view(contact)));
        }
        let token = match token {
            Some(t) => Some(String::from_str(t)),
            None => None,
        };
        Ferinth { base_url: String::from_str(API_BASE_URL), user_agent, token }
    }

    /// A `Get` of `project/{project_id}` followed by `tail`, once the id is checked.
    fn get_project_path(&self, project_id: &str, tail: &[&str]) -> (r: Result<Request, RequestError>)
        ensures
            !is_slug(project_id@) ==> r == Err::<Request, RequestError>(RequestError::NotBase62),
            is_slug(project_id@) ==> (r matches Ok(q) && q@ == get_view(
                self.project_url(project_id@, str_views(tail@)),
            )),
    {
        check_id_slug(project_id)?;
        let url = self.project_path(project_id, tail);
        Ok(Request { method: Method::Get, url, content_type: None, body: Vec::new() })
    }

    /// The URL of `project/{project_id}` followed by `tail`.
    fn project_path(&self, project_id: &str, tail: &[&str]) -> (r: String)
        ensures
            r@ == self.project_url(project_id@, str_views(tail@)),
    {
        let mut segments: Vec<&str> = Vec::new();
        segments.push("project");
        segments.push(project_id);
        proof {
            assert(str_views(segments@) =~= seq!["project"@, project_id@]);
            assert(str_views(tail@.take(0)) =~= seq![]);
        }
        let mut i: usize = 0;
        while i < tail.len()
            invariant
                i <= tail@.len(),
                str_views(segments@) == seq!["project"@, project_id@] + str_views(tail@.take(i as int)),
            decreases tail@.len() - i,
        {
            let ghost before = segments@;
            segments.push(tail[i]);
            proof {
                assert(str_views(segments@) =~= str_views(before).push(tail@[i as int]@));
                assert(str_views(tail@.take(i + 1)) =~= str_views(tail@.take(i as int)).push(
                    tail@[i as int]@,
                ));
                assert(str_views(segments@) =~= seq!["project"@, project_id@] + str_views(
                    tail@.take(i + 1),
                ));
            }
            i = i + 1;
        }
        proof {
            assert(tail@.take(i as int) =~= tail@);
        }
        join_all(self.base_url.as_str(), segments.as_slice())
    }

    /// The request that fetches the project of `project_id` (an id or a slug).
    pub fn get_project(&self, project_id: &str) -> (r: Result<Request, RequestError>)
        ensures
            !is_slug(project_id@) ==> r == Err::<Request, RequestError>(RequestError::NotBase62),
            is_slug(project_id@) ==> (r matches Ok(q) && q@ == get_view(
                self.project_url(project_id@, seq![]),
            )),
    {
        let r = self.get_project_path(project_id, &[]);
        proof {
            assert(str_views(seq![]) =~= seq![]);
        }
        r
    }

    /// The request that fetches the projects of `project_ids`; they go to the
    /// service as one JSON array in the `ids` query parameter.
    pub fn get_multiple_projects(&self, project_ids: &[&str]) -> (r: Result<Request, RequestError>)
        ensures
            slugs_result(str_views(project_ids@)) is Err ==> r == Err::<Request, RequestError>(
                RequestError::NotBase62,
            ),
            slugs_result(str_views(project_ids@)) is Ok ==> (r matches Ok(q) && q@ == get_view(
                with_query_spec(
                    joined(self.base_url@, seq!["projects"@]),
                    seq![("ids"@, json_string_array(str_views(project_ids@)))],
                ),
            )),
    {
        proof {
            lemma_slugs_result_first_failure(str_views(project_ids@));
        }
        check_id_slugs(project_ids)?;
        proof {
            assert forall|i: int| 0 <= i < project_ids@.len() implies is_slug(
                #[trigger] project_ids@[i]@,
            ) by {
                assert(slug_result(str_views(project_ids@)[i]) is Ok);
            }
        }
        let ids = ids_to_json(project_ids)?;
        Ok(self.get_projects_by_json_ids(ids))
    }

    /// The request that fetches the projects listed in `ids_json`, a JSON
    /// array of ids, passed as the `ids` query parameter.
    pub fn get_projects_by_json_ids(&self, ids_json: String) -> (r: Request)
        ensures
            r@ == get_view(
                with_query_spec(
                    joined(self.base_url@, seq!["projects"@]),
                    seq![("ids"@, ids_json@)],
                ),
            ),
    {
        let ghost ids_view = ids_json@;
        let segments: [&str; 1] = ["projects"];
        assert(segments@ == seq!["projects"]);
        let url = join_all(self.base_url.as_str(), &segments);
        let mut query: Vec<(String, String)> = Vec::new();
        query.push((String::from_str("ids"), ids_json));
        proof {
            assert(pair_views(query@) =~= seq![("ids"@, ids_view)]);
            assert(str_views(seq!["projects"]) =~= seq!["projects"@]);
        }
        let url = with_query(url.as_str(), &query);
        Request { method: Method::Get, url, content_type: None, body: Vec::new() }
    }

    /// The request that fetches `count` randomly chosen projects.
    pub fn get_random_projects(&self, count: u64) -> (r: Request)
        ensures
            r@ == get_view(
                with_query_spec(
                    joined(self.base_url@, seq!["projects_random"@]),
                    seq![("count"@, decimal(count as nat))],
                ),
            ),
    {
        let segments: [&str; 1] = ["projects_random"];
        assert(segments@ == seq!["projects_random"]);
        let url = join_all(self.base_url.as_str(), &segments);
        let count_text = to_decimal(count);
        let ghost count_view = count_text@;
        let mut query: Vec<(String, String)> = Vec::new();
        query.push((String::from_str("count"), count_text));
        proof {
            assert(pair_views(query@) =~= seq![("count"@, count_view)]);
            assert(str_views(seq!["projects_random"]) =~= seq!["projects_random"@]);
        }
        let url = with_query(url.as_str(), &query);
        Request { method: Method::Get, url, content_type: None, body: Vec::new() }
    }

    /// The request that asks whether `project_id` (an id or a slug) names a
    /// project; the service answers with the project's id.
    pub fn does_exist(&self, project_id: &str) -> (r: Result<Request, RequestError>)
        ensures
            !is_slug(project_id@) ==> r == Err::<Request, RequestError>(RequestError::NotBase62),
            is_slug(project_id@) ==> (r matches Ok(q) && q@ == get_view(
                self.project_url(project_id@, seq!["check"@]),
            )),
    {
        let tail: [&str; 1] = ["check"];
        assert(tail@ == seq!["check"]);
        assert(str_views(seq!["check"]) =~= seq!["check"@]);
        self.get_project_path(project_id, &tail)
    }

    /// The request that fetches the projects and versions that the project of
    /// `project_id` depends on.
    pub fn get_project_dependencies(&self, project_id: &str) -> (r: Result<Request, RequestError>)
        ensures
            !is_slug(project_id@) ==> r == Err::<Request, RequestError>(RequestError::NotBase62),
            is_slug(project_id@) ==> (r matches Ok(q) && q@ == get_view(
                self.project_url(project_id@, seq!["dependencies"@]),
            )),
    {
        let tail: [&str; 1] = ["dependencies"];
        assert(tail@ == seq!["dependencies"]);
        assert(str_views(seq!["dependencies"]) =~= seq!["dependencies"@]);
        self.get_project_path(project_id, &tail)
    }

    /// The request that uploads `image` to the gallery of `project_id`, as an
    /// image of format `ext`, with an optional `title` and `description`.
    /// It needs the client's token; without one the service refuses it.
    pub fn add_gallery_image(
        &self,
        project_id: &str,
        image: &[u8],
        ext: FileExt,
        featured: bool,
        title: Option<String>,
        description: Option<String>,
    ) -> (r: Result<Request, RequestError>)
        ensures
            !is_slug(project_id@) ==> r == Err::<Request, RequestError>(RequestError::NotBase62),
            is_slug(project_id@) ==> (r matches Ok(q) && q@ == (RequestView {
                method: Method::Post,
                url: with_query_spec(
                    self.project_url(project_id@, seq!["gallery"@]),
                    gallery_query(ext, featured, opt_view(title), opt_view(description)),
                ),
                content_type: Some("image/"@ + ext.name()),
                body: image@,
            })),
    {
        check_id_slug(project_id)?;
        let tail: [&str; 1] = ["gallery"];
        assert(tail@ == seq!["gallery"]);
        assert(str_views(seq!["gallery"]) =~= seq!["gallery"@]);
        let url = self.project_path(project_id, &tail);
        let mut query: Vec<(String, String)> = Vec::new();
        query.push((String::from_str("ext"), String::from_str(ext.as_str())));
        let featured_text = if featured {
            "true"
        } else {
            "false"
        };
        query.push((String::from_str("featured"), String::from_str(featured_text)));
        let ghost head = pair_views(query@);
        let ghost title_view = opt_view(title);
        let ghost description_view = opt_view(description);
        match title {
            Some(t) => query.push((String::from_str("title"), t)),
            None => {},
        }
        let ghost middle = pair_views(query@);
        proof {
            assert(head =~= seq![("ext"@, ext.name()), ("featured"@, bool_text(featured))]);
            assert(middle =~= head + optional_pair("title"@, title_view));
        }
        match description {
            Some(d) => query.push((String::from_str("description"), d)),
            None => {},
        }
        proof {
            assert(pair_views(query@) =~= middle + optional_pair("description"@, description_view));
            assert(pair_views(query@) =~= gallery_query(ext, featured, title_view, description_view));
        }
        let url = with_query(url.as_str(), &query);
        let mut content_type = String::from_str("image/");
        content_type.append(ext.as_str());
        let body = vstd::slice::slice_to_vec(image);
        Ok(Request { method: Method::Post, url, content_type: Some(content_type), body })
    }

    /// The request that makes the client's user follow the project of
    /// `project_id`; its body is the JSON empty string `""`.
    /// It needs the client's token; without one the service refuses it.
    pub fn follow(&self, project_id: &str) -> (r: Result<Request, RequestError>)
        ensures
            !is_slug(project_id@) ==> r == Err::<Request, RequestError>(RequestError::NotBase62),
            is_slug(project_id@) ==> (r matches Ok(q) && q@ == (RequestView {
                method: Method::Post,
                url: self.project_url(project_id@, seq!["follow"@]),
                content_type: Some("application/json"@),
                body: seq![34u8, 34u8],
            })),
    {
        check_id_slug(project_id)?;
        let tail: [&str; 1] = ["follow"];
        assert(tail@ == seq!["follow"]);
        assert(str_views(seq!["follow"]) =~= seq!["follow"@]);
        let url = self.project_path(project_id, &tail);
        let mut body: Vec<u8> = Vec::new();
        body.push(34u8);
        body.push(34u8);
        assert(body@ =~= seq![34u8, 34u8]);
        Ok(Request {
            method: Method::Post,
            url,
            content_type: Some(String::from_str("application/json")),
            body,
        })
    }

    /// The request that makes the client's user stop following the project of
    /// `project_id`.
    /// It needs the client's token; without one the service refuses it.
    pub fn unfollow(&self, project_id: &str) -> (r: Result<Request, RequestError>)
        ensures
            !is_slug(project_id@) ==> r == Err::<Request, RequestError>(RequestError::NotBase62),
            is_slug(project_id@) ==> (r matches Ok(q) && q@ == (RequestView {
                method: Method::Delete,
                url: self.project_url(project_id@, seq!["follow"@]),
                content_type: None,
                body: seq![],
            })),
    {
        check_id_slug(project_id)?;
        let tail: [&str; 1] = ["follow"];
        assert(tail@ == seq!["follow"]);
        assert(str_views(seq!["follow"]) =~= seq!["follow"@]);
        let url = self.project_path(project_id, &tail);
        Ok(Request { method: Method::Delete, url, content_type: None, body: Vec::new() })
    }
}

} // verus!
