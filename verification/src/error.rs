//! The `error` module defines the library-specific [`Bandage`] error union and
//! an alias for `Result`, [`Clean`], using it.
use crate::model::{
    spec_describe, spec_fields_body, spec_payload_message, spec_payload_text, spec_prefix,
    spec_suffix, tag_of, BandageModel, Tag,
};
use vstd::prelude::*;
use vstd::string::StringExecFns;

verus! {

/// The `Clean` type is an alias for `Result` using the library-defined [`Bandage`].
pub type Clean<T> = Result<T, Bandage>;

/// The `Bandage` enum is a library-specific error union: one closed set of
/// tags, each standing for one failure origin, carrying at most one payload.
/// A wrapped foreign error is carried as its rendered message text, so that
/// no diagnostic information is dropped when many error types collapse into
/// one.
///
/// Capability tags are a build-time slice of the union. This build wires a
/// verified conversion for every capability under its dependencies; the
/// OAuth2 and plotters drawing conversions stand outside the verified
/// library, because those error types carry trait bounds the verifier does
/// not accept in a type declaration. The icon, windowing and GPU tags
/// (`BadIcon`, `EventLoop`, `WinOs`, `WinitIcon`, `WgpuSurface`,
/// `WgpuDevice`) have no conversion in this build — the crates that produce
/// those errors are not among its dependencies — so values of those tags are
/// constructed directly from the message text.
#[derive(Debug)]
pub enum Bandage {
    /// An error occurred during the authorization process.
    Auth,
    /// An environment variable could not be read; carries the foreign
    /// error's message.
    Env(String),
    /// A malformed file name; carries the offending name.
    FileName(String),
    /// An integer could not be parsed from a string; carries the foreign
    /// error's message.
    Int(String),
    /// An input/output error; carries the foreign error's message.
    Io(String),
    /// An error occurred during parsing.
    Parse,
    /// A builder-style constructor found required fields missing.
    UserBuild {
        /// The ordered field names the builder found missing.
        value: Vec<String>,
    },
    /// A UTF-8 decoding failure; carries the foreign error's message.
    Utf8(String),
    /// A message enclosed with an error.
    Hint(String),
    /// An unclassified failure.
    Unknown,
    /// A failure to load an icon image; carries the foreign error's message.
    BadIcon(String),
    /// A failure during binary encoding; carries the foreign error's message.
    Bin(String),
    /// A failure to parse a byte quantity; carries the foreign error's message.
    Byte(String),
    /// A failure in CSV reading or writing; carries the foreign error's message.
    Csv(String),
    /// A failure in an HTTP request; carries the foreign error's message.
    Http(String),
    /// A failure to decode or process an image; carries the foreign error's message.
    Image(String),
    /// A failure during an OAuth2 token exchange; carries the foreign error's message.
    Oauth2(String),
    /// A failure to deserialize a value; carries the foreign error's message.
    Serialize(String),
    /// A failure to read or write JSON; carries the foreign error's message.
    SerdeJson(String),
    /// A database command failure; carries the foreign error's message.
    Sqlx(String),
    /// A database migration failure; carries the foreign error's message.
    Migrate(String),
    /// A failure to parse or build a UUID; carries the foreign error's message.
    Uuid(String),
    /// A failure to parse a URL; carries the foreign error's message.
    Url(String),
    /// A plotting backend failure; carries the foreign error's message.
    BitMap(String),
    /// A plotting drawing failure; carries the foreign error's message.
    Plot(String),
    /// A failure to read GeoJSON; carries the foreign error's message.
    GeoJson(String),
    /// A failure to initialize a tracing subscriber; carries the foreign error's message.
    TraceInit(String),
    /// A web framework failure; carries the foreign error's message.
    Axum(String),
    /// An HTTP type construction failure; carries the foreign error's message.
    AxumHttp(String),
    /// An HTTP protocol failure; carries the foreign error's message.
    Hyper(String),
    /// A legacy HTTP client failure; carries the foreign error's message.
    HyperUtil(String),
    /// A failure to read a shapefile; carries the foreign error's message.
    Shapefile(String),
    /// A failure in a windowing event loop; carries the foreign error's message.
    EventLoop(String),
    /// An operating-system failure in the windowing layer; carries the
    /// foreign error's message.
    WinOs(String),
    /// A failure to build a window icon; carries the foreign error's message.
    WinitIcon(String),
    /// A failure to create a GPU surface; carries the foreign error's message.
    WgpuSurface(String),
    /// A failure to acquire a GPU device; carries the foreign error's message.
    WgpuDevice(String),
    /// A combinator parsing failure; carries the foreign error's message.
    Nom(String),
    /// A TDS database failure; carries the foreign error's message.
    Tiberius(String),
    /// A failure to load an environment file; carries the foreign error's message.
    Dotenv(String),
    /// A datetime handling failure; carries the foreign error's message.
    Jiff(String),
}

impl View for Bandage {
    type V = BandageModel;

    open spec fn view(&self) -> BandageModel {
        match self {
            Bandage::Auth => BandageModel::Auth,
            Bandage::Env(m) => BandageModel::Env(m@),
            Bandage::FileName(m) => BandageModel::FileName(m@),
            Bandage::Int(m) => BandageModel::Int(m@),
            Bandage::Io(m) => BandageModel::Io(m@),
            Bandage::Parse => BandageModel::Parse,
            Bandage::UserBuild { value } => BandageModel::UserBuild(value.deep_view()),
            Bandage::Utf8(m) => BandageModel::Utf8(m@),
            Bandage::Hint(m) => BandageModel::Hint(m@),
            Bandage::Unknown => BandageModel::Unknown,
            Bandage::BadIcon(m) => BandageModel::BadIcon(m@),
            Bandage::Bin(m) => BandageModel::Bin(m@),
            Bandage::Byte(m) => BandageModel::Byte(m@),
            Bandage::Csv(m) => BandageModel::Csv(m@),
            Bandage::Http(m) => BandageModel::Http(m@),
            Bandage::Image(m) => BandageModel::Image(m@),
            Bandage::Oauth2(m) => BandageModel::Oauth2(m@),
            Bandage::Serialize(m) => BandageModel::Serialize(m@),
            Bandage::SerdeJson(m) => BandageModel::SerdeJson(m@),
            Bandage::Sqlx(m) => BandageModel::Sqlx(m@),
            Bandage::Migrate(m) => BandageModel::Migrate(m@),
            Bandage::Uuid(m) => BandageModel::Uuid(m@),
            Bandage::Url(m) => BandageModel::Url(m@),
            Bandage::BitMap(m) => BandageModel::BitMap(m@),
            Bandage::Plot(m) => BandageModel::Plot(m@),
            Bandage::GeoJson(m) => BandageModel::GeoJson(m@),
            Bandage::TraceInit(m) => BandageModel::TraceInit(m@),
            Bandage::Axum(m) => BandageModel::Axum(m@),
            Bandage::AxumHttp(m) => BandageModel::AxumHttp(m@),
            Bandage::Hyper(m) => BandageModel::Hyper(m@),
            Bandage::HyperUtil(m) => BandageModel::HyperUtil(m@),
            Bandage::Shapefile(m) => BandageModel::Shapefile(m@),
            Bandage::EventLoop(m) => BandageModel::EventLoop(m@),
            Bandage::WinOs(m) => BandageModel::WinOs(m@),
            Bandage::WinitIcon(m) => BandageModel::WinitIcon(m@),
            Bandage::WgpuSurface(m) => BandageModel::WgpuSurface(m@),
            Bandage::WgpuDevice(m) => BandageModel::WgpuDevice(m@),
            Bandage::Nom(m) => BandageModel::Nom(m@),
            Bandage::Tiberius(m) => BandageModel::Tiberius(m@),
            Bandage::Dotenv(m) => BandageModel::Dotenv(m@),
            Bandage::Jiff(m) => BandageModel::Jiff(m@),
        }
    }
}

impl Bandage {
    /// The tag of this error: which failure origin it represents.
    pub fn tag(&self) -> (t: Tag)
        ensures
            t == tag_of(self@),
    {
        match self {
            Bandage::Auth => Tag::Auth,
            Bandage::Env(_) => Tag::Env,
            Bandage::FileName(_) => Tag::FileName,
            Bandage::Int(_) => Tag::Int,
            Bandage::Io(_) => Tag::Io,
            Bandage::Parse => Tag::Parse,
            Bandage::UserBuild { .. } => Tag::UserBuild,
            Bandage::Utf8(_) => Tag::Utf8,
            Bandage::Hint(_) => Tag::Hint,
            Bandage::Unknown => Tag::Unknown,
            Bandage::BadIcon(_) => Tag::BadIcon,
            Bandage::Bin(_) => Tag::Bin,
            Bandage::Byte(_) => Tag::Byte,
            Bandage::Csv(_) => Tag::Csv,
            Bandage::Http(_) => Tag::Http,
            Bandage::Image(_) => Tag::Image,
            Bandage::Oauth2(_) => Tag::Oauth2,
            Bandage::Serialize(_) => Tag::Serialize,
            Bandage::SerdeJson(_) => Tag::SerdeJson,
            Bandage::Sqlx(_) => Tag::Sqlx,
            Bandage::Migrate(_) => Tag::Migrate,
            Bandage::Uuid(_) => Tag::Uuid,
            Bandage::Url(_) => Tag::Url,
            Bandage::BitMap(_) => Tag::BitMap,
            Bandage::Plot(_) => Tag::Plot,
            Bandage::GeoJson(_) => Tag::GeoJson,
            Bandage::TraceInit(_) => Tag::TraceInit,
            Bandage::Axum(_) => Tag::Axum,
            Bandage::AxumHttp(_) => Tag::AxumHttp,
            Bandage::Hyper(_) => Tag::Hyper,
            Bandage::HyperUtil(_) => Tag::HyperUtil,
            Bandage::Shapefile(_) => Tag::Shapefile,
            Bandage::EventLoop(_) => Tag::EventLoop,
            Bandage::WinOs(_) => Tag::WinOs,
            Bandage::WinitIcon(_) => Tag::WinitIcon,
            Bandage::WgpuSurface(_) => Tag::WgpuSurface,
            Bandage::WgpuDevice(_) => Tag::WgpuDevice,
            Bandage::Nom(_) => Tag::Nom,
            Bandage::Tiberius(_) => Tag::Tiberius,
            Bandage::Dotenv(_) => Tag::Dotenv,
            Bandage::Jiff(_) => Tag::Jiff,
        }
    }

    /// The wrapped foreign error's message text, for tags that wrap one.
    pub fn payload_message(&self) -> (r: Option<String>)
        ensures
            r is Some <==> spec_payload_message(self@) is Some,
            r is Some ==> r->0@ == spec_payload_message(self@)->0,
    {
        match self {
            Bandage::Env(m) => Some(m.clone()),
            Bandage::FileName(m) => Some(m.clone()),
            Bandage::Int(m) => Some(m.clone()),
            Bandage::Io(m) => Some(m.clone()),
            Bandage::Utf8(m) => Some(m.clone()),
            Bandage::Hint(m) => Some(m.clone()),
            Bandage::BadIcon(m) => Some(m.clone()),
            Bandage::Bin(m) => Some(m.clone()),
            Bandage::Byte(m) => Some(m.clone()),
            Bandage::Csv(m) => Some(m.clone()),
            Bandage::Http(m) => Some(m.clone()),
            Bandage::Image(m) => Some(m.clone()),
            Bandage::Oauth2(m) => Some(m.clone()),
            Bandage::Serialize(m) => Some(m.clone()),
            Bandage::SerdeJson(m) => Some(m.clone()),
            Bandage::Sqlx(m) => Some(m.clone()),
            Bandage::Migrate(m) => Some(m.clone()),
            Bandage::Uuid(m) => Some(m.clone()),
            Bandage::Url(m) => Some(m.clone()),
            Bandage::BitMap(m) => Some(m.clone()),
            Bandage::Plot(m) => Some(m.clone()),
            Bandage::GeoJson(m) => Some(m.clone()),
            Bandage::TraceInit(m) => Some(m.clone()),
            Bandage::Axum(m) => Some(m.clone()),
            Bandage::AxumHttp(m) => Some(m.clone()),
            Bandage::Hyper(m) => Some(m.clone()),
            Bandage::HyperUtil(m) => Some(m.clone()),
            Bandage::Shapefile(m) => Some(m.clone()),
            Bandage::EventLoop(m) => Some(m.clone()),
            Bandage::WinOs(m) => Some(m.clone()),
            Bandage::WinitIcon(m) => Some(m.clone()),
            Bandage::WgpuSurface(m) => Some(m.clone()),
            Bandage::WgpuDevice(m) => Some(m.clone()),
            Bandage::Nom(m) => Some(m.clone()),
            Bandage::Tiberius(m) => Some(m.clone()),
            Bandage::Dotenv(m) => Some(m.clone()),
            Bandage::Jiff(m) => Some(m.clone()),
            _ => None,
        }
    }

    /// Renders the fixed-format, human-readable message for this error.
    /// The result is a function of the value alone, so equal values always
    /// render to the same message, and it is never empty.
    pub fn describe(&self) -> (r: String)
        ensures
            r@ == spec_describe(self@),
    {
        let mut r = self.prefix_string();
        let payload = self.payload_string();
        r.append(payload.as_str());
        let suffix = self.suffix_string();
        r.append(suffix.as_str());
        r
    }

    /// The fixed text `describe` places before the payload.
    fn prefix_string(&self) -> (r: String)
        ensures
            r@ == spec_prefix(self@),
    {
        match self {
            Bandage::Auth => String::from_str("Authorization failed."),
            Bandage::Env(_) => String::from_str(
                "Could not read environmental variables from .env: ",
            ),
            Bandage::FileName(_) => String::from_str("Bad file name \""),
            Bandage::Int(_) => String::from_str("Could not parse integer from string: "),
            Bandage::Io(_) => String::from_str("Input/output error from std: "),
            Bandage::Parse => String::from_str("Parse error."),
            Bandage::UserBuild { .. } => String::from_str("Value not provided for ["),
            Bandage::Utf8(_) => String::from_str("Utf8 error: "),
            Bandage::Hint(_) => String::from_str("Hint: "),
            Bandage::Unknown => String::from_str("Unexpected error."),
            Bandage::BadIcon(_) => String::from_str("Icon loading error: "),
            Bandage::Bin(_) => String::from_str("Could not serialize to binary: "),
            Bandage::Byte(_) => String::from_str("Byte conversion failed: "),
            Bandage::Csv(_) => String::from_str("Could not make CSV writer: "),
            Bandage::Http(_) => String::from_str("HTTP request error: "),
            Bandage::Image(_) => String::from_str("Image processing error: "),
            Bandage::Oauth2(_) => String::from_str("Oauth2 error: "),
            Bandage::Serialize(_) => String::from_str("Deserialize error: "),
            Bandage::SerdeJson(_) => String::from_str("Deserialization error: "),
            Bandage::Sqlx(_) => String::from_str("Sqlx command error: "),
            Bandage::Migrate(_) => String::from_str("Sqlx migration error: "),
            Bandage::Uuid(_) => String::from_str("Uuid conversion failed: "),
            Bandage::Url(_) => String::from_str("Parse error: "),
            Bandage::BitMap(_) => String::from_str("Plotting backend error: "),
            Bandage::Plot(_) => String::from_str("Plotting drawing error: "),
            Bandage::GeoJson(_) => String::from_str("Error reading geojson file: "),
            Bandage::TraceInit(_) => String::from_str("Problem initializing subscriber: "),
            Bandage::Axum(_) => String::from_str("Axum error: "),
            Bandage::AxumHttp(_) => String::from_str("Axum http error: "),
            Bandage::Hyper(_) => String::from_str("Legacy client error: "),
            Bandage::HyperUtil(_) => String::from_str("Legacy client error: "),
            Bandage::Shapefile(_) => String::from_str("Shapefile error: "),
            Bandage::EventLoop(_) => String::from_str("Winit event loop error: "),
            Bandage::WinOs(_) => String::from_str("OS error: "),
            Bandage::WinitIcon(_) => String::from_str("Winit icon error: "),
            Bandage::WgpuSurface(_) => String::from_str("From wgpu: "),
            Bandage::WgpuDevice(_) => String::from_str("From wgpu: "),
            Bandage::Nom(_) => String::from_str("Nom error: "),
            Bandage::Tiberius(_) => String::from_str("Tiberius error: "),
            Bandage::Dotenv(_) => String::from_str("Dotenvy error: "),
            Bandage::Jiff(_) => String::from_str("Jiff error: "),
        }
    }

    /// The payload as `describe` renders it.
    fn payload_string(&self) -> (r: String)
        ensures
            r@ == spec_payload_text(self@),
    {
        match self {
            Bandage::Env(m) => m.clone(),
            Bandage::FileName(m) => m.clone(),
            Bandage::Int(m) => m.clone(),
            Bandage::Io(m) => m.clone(),
            Bandage::Utf8(m) => m.clone(),
            Bandage::Hint(m) => m.clone(),
            Bandage::UserBuild { value } => render_fields(value),
            Bandage::BadIcon(m) => m.clone(),
            Bandage::Bin(m) => m.clone(),
            Bandage::Byte(m) => m.clone(),
            Bandage::Csv(m) => m.clone(),
            Bandage::Http(m) => m.clone(),
            Bandage::Image(m) => m.clone(),
            Bandage::Oauth2(m) => m.clone(),
            Bandage::Serialize(m) => m.clone(),
            Bandage::SerdeJson(m) => m.clone(),
            Bandage::Sqlx(m) => m.clone(),
            Bandage::Migrate(m) => m.clone(),
            Bandage::Uuid(m) => m.clone(),
            Bandage::Url(m) => m.clone(),
            Bandage::BitMap(m) => m.clone(),
            Bandage::Plot(m) => m.clone(),
            Bandage::GeoJson(m) => m.clone(),
            Bandage::TraceInit(m) => m.clone(),
            Bandage::Axum(m) => m.clone(),
            Bandage::AxumHttp(m) => m.clone(),
            Bandage::Hyper(m) => m.clone(),
            Bandage::HyperUtil(m) => m.clone(),
            Bandage::Shapefile(m) => m.clone(),
            Bandage::EventLoop(m) => m.clone(),
            Bandage::WinOs(m) => m.clone(),
            Bandage::WinitIcon(m) => m.clone(),
            Bandage::WgpuSurface(m) => m.clone(),
            Bandage::WgpuDevice(m) => m.clone(),
            Bandage::Nom(m) => m.clone(),
            Bandage::Tiberius(m) => m.clone(),
            Bandage::Dotenv(m) => m.clone(),
            Bandage::Jiff(m) => m.clone(),
            _ => String::new(),
        }
    }

    /// The fixed text `describe` places after the payload.
    fn suffix_string(&self) -> (r: String)
        ensures
            r@ == spec_suffix(self@),
    {
        match self {
            Bandage::FileName(_) => String::from_str("\"."),
            Bandage::UserBuild { .. } => String::from_str("]."),
            _ => String::new(),
        }
    }
}

/// Renders the ordered field list of a `UserBuild` error: each name quoted,
/// separated by a comma and a space, in the order given. Names are carried
/// verbatim between the quotes: a quote or backslash inside a field name is
/// not escaped.
fn render_fields(fields: &Vec<String>) -> (r: String)
    ensures
        r@ == spec_fields_body(fields.deep_view()),
{
    let ghost all = fields.deep_view();
    let mut r = String::new();
    let mut i: usize = 0;
    while i < fields.len()
        invariant
            i <= fields.len(),
            all == fields.deep_view(),
            r@ == spec_fields_body(all.take(i as int)),
        decreases fields.len() - i,
    {
        if i > 0 {
            r.append(", ");
        }
        r.append("\"");
        r.append(fields[i].as_str());
        r.append("\"");
        proof {
            assert(all[i as int] == fields@[i as int]@);
            crate::model::lemma_fields_body_snoc(all, i as int);
            assert(r@ =~= spec_fields_body(all.take(i as int + 1)));
        }
        i = i + 1;
    }
    proof {
        assert(all.take(fields.len() as int) =~= all);
    }
    r
}

} // verus!

