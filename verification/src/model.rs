//! The mathematical model of the error union: an abstract value per error,
//! the spec-level rendering of its message, and the laws the union obeys.
use vstd::prelude::*;

verus! {

/// The failure origin of a [`crate::Bandage`] value: one tag per
/// distinguishable source of failure.
#[derive(Clone, Copy, Debug, PartialEq, Eq, Structural)]
pub enum Tag {
    /// An error during the authorization process.
    Auth,
    /// A failure to read an environment variable.
    Env,
    /// A malformed file name.
    FileName,
    /// A failure to parse an integer from a string.
    Int,
    /// An input/output error.
    Io,
    /// An error during parsing.
    Parse,
    /// A builder-style constructor found required fields missing.
    UserBuild,
    /// A UTF-8 decoding failure.
    Utf8,
    /// A message enclosed with an error.
    Hint,
    /// An unclassified failure.
    Unknown,
    /// A failure to load an icon image.
    BadIcon,
    /// A failure during binary encoding.
    Bin,
    /// A failure to parse a byte quantity.
    Byte,
    /// A failure in CSV reading or writing.
    Csv,
    /// A failure in an HTTP request.
    Http,
    /// A failure to decode or process an image.
    Image,
    /// A failure during an OAuth2 token exchange.
    Oauth2,
    /// A failure to deserialize a value.
    Serialize,
    /// A failure to read or write JSON.
    SerdeJson,
    /// A database command failure.
    Sqlx,
    /// A database migration failure.
    Migrate,
    /// A failure to parse or build a UUID.
    Uuid,
    /// A failure to parse a URL.
    Url,
    /// A plotting backend failure.
    BitMap,
    /// A plotting drawing failure.
    Plot,
    /// A failure to read GeoJSON.
    GeoJson,
    /// A failure to initialize a tracing subscriber.
    TraceInit,
    /// A web framework failure.
    Axum,
    /// An HTTP type construction failure.
    AxumHttp,
    /// An HTTP protocol failure.
    Hyper,
    /// A legacy HTTP client failure.
    HyperUtil,
    /// A failure to read a shapefile.
    Shapefile,
    /// A failure in a windowing event loop.
    EventLoop,
    /// An operating-system failure in the windowing layer.
    WinOs,
    /// A failure to build a window icon.
    WinitIcon,
    /// A failure to create a GPU surface.
    WgpuSurface,
    /// A failure to acquire a GPU device.
    WgpuDevice,
    /// A combinator parsing failure.
    Nom,
    /// A TDS database failure.
    Tiberius,
    /// A failure to load an environment file.
    Dotenv,
    /// A datetime handling failure.
    Jiff,
}

/// The model of a [`crate::Bandage`] value: its tag, together with the
/// payload the tag carries, message text as a sequence of characters.
pub enum BandageModel {
    /// An error during the authorization process; no payload.
    Auth,
    /// A failure to read an environment variable; the foreign error's message.
    Env(Seq<char>),
    /// A malformed file name; the offending name.
    FileName(Seq<char>),
    /// A failure to parse an integer; the foreign error's message.
    Int(Seq<char>),
    /// An input/output error; the foreign error's message.
    Io(Seq<char>),
    /// An error during parsing; no payload.
    Parse,
    /// A builder validation failure; the ordered list of missing field names.
    UserBuild(Seq<Seq<char>>),
    /// A UTF-8 decoding failure; the foreign error's message.
    Utf8(Seq<char>),
    /// A message enclosed with an error.
    Hint(Seq<char>),
    /// An unclassified failure; no payload.
    Unknown,
    /// An icon loading failure; the foreign error's message.
    BadIcon(Seq<char>),
    /// A binary encoding failure; the foreign error's message.
    Bin(Seq<char>),
    /// A byte quantity parse failure; the foreign error's message.
    Byte(Seq<char>),
    /// A CSV failure; the foreign error's message.
    Csv(Seq<char>),
    /// An HTTP request failure; the foreign error's message.
    Http(Seq<char>),
    /// An image processing failure; the foreign error's message.
    Image(Seq<char>),
    /// An OAuth2 failure; the foreign error's message.
    Oauth2(Seq<char>),
    /// A deserialization failure; the foreign error's message.
    Serialize(Seq<char>),
    /// A JSON failure; the foreign error's message.
    SerdeJson(Seq<char>),
    /// A database command failure; the foreign error's message.
    Sqlx(Seq<char>),
    /// A database migration failure; the foreign error's message.
    Migrate(Seq<char>),
    /// A UUID failure; the foreign error's message.
    Uuid(Seq<char>),
    /// A URL parse failure; the foreign error's message.
    Url(Seq<char>),
    /// A plotting backend failure; the foreign error's message.
    BitMap(Seq<char>),
    /// A plotting drawing failure; the foreign error's message.
    Plot(Seq<char>),
    /// A GeoJSON failure; the foreign error's message.
    GeoJson(Seq<char>),
    /// A tracing subscriber initialization failure; the foreign error's message.
    TraceInit(Seq<char>),
    /// A web framework failure; the foreign error's message.
    Axum(Seq<char>),
    /// An HTTP type construction failure; the foreign error's message.
    AxumHttp(Seq<char>),
    /// An HTTP protocol failure; the foreign error's message.
    Hyper(Seq<char>),
    /// A legacy HTTP client failure; the foreign error's message.
    HyperUtil(Seq<char>),
    /// A shapefile failure; the foreign error's message.
    Shapefile(Seq<char>),
    /// A windowing event loop failure; the foreign error's message.
    EventLoop(Seq<char>),
    /// An operating-system windowing failure; the foreign error's message.
    WinOs(Seq<char>),
    /// A window icon failure; the foreign error's message.
    WinitIcon(Seq<char>),
    /// A GPU surface creation failure; the foreign error's message.
    WgpuSurface(Seq<char>),
    /// A GPU device failure; the foreign error's message.
    WgpuDevice(Seq<char>),
    /// A combinator parsing failure; the foreign error's message.
    Nom(Seq<char>),
    /// A TDS database failure; the foreign error's message.
    Tiberius(Seq<char>),
    /// An environment file failure; the foreign error's message.
    Dotenv(Seq<char>),
    /// A datetime failure; the foreign error's message.
    Jiff(Seq<char>),
}

/// The payload a tag carries: nothing, one message, or an ordered field list.
pub enum Payload {
    /// The tag carries no data.
    Absent,
    /// The tag wraps one message text.
    Message(Seq<char>),
    /// The tag carries an ordered list of field names.
    Fields(Seq<Seq<char>>),
}

/// The tag of a model value.
pub open spec fn tag_of(m: BandageModel) -> Tag {
    match m {
        BandageModel::Auth => Tag::Auth,
        BandageModel::Env(_) => Tag::Env,
        BandageModel::FileName(_) => Tag::FileName,
        BandageModel::Int(_) => Tag::Int,
        BandageModel::Io(_) => Tag::Io,
        BandageModel::Parse => Tag::Parse,
        BandageModel::UserBuild(_) => Tag::UserBuild,
        BandageModel::Utf8(_) => Tag::Utf8,
        BandageModel::Hint(_) => Tag::Hint,
        BandageModel::Unknown => Tag::Unknown,
        BandageModel::BadIcon(_) => Tag::BadIcon,
        BandageModel::Bin(_) => Tag::Bin,
        BandageModel::Byte(_) => Tag::Byte,
        BandageModel::Csv(_) => Tag::Csv,
        BandageModel::Http(_) => Tag::Http,
        BandageModel::Image(_) => Tag::Image,
        BandageModel::Oauth2(_) => Tag::Oauth2,
        BandageModel::Serialize(_) => Tag::Serialize,
        BandageModel::SerdeJson(_) => Tag::SerdeJson,
        BandageModel::Sqlx(_) => Tag::Sqlx,
        BandageModel::Migrate(_) => Tag::Migrate,
        BandageModel::Uuid(_) => Tag::Uuid,
        BandageModel::Url(_) => Tag::Url,
        BandageModel::BitMap(_) => Tag::BitMap,
        BandageModel::Plot(_) => Tag::Plot,
        BandageModel::GeoJson(_) => Tag::GeoJson,
        BandageModel::TraceInit(_) => Tag::TraceInit,
        BandageModel::Axum(_) => Tag::Axum,
        BandageModel::AxumHttp(_) => Tag::AxumHttp,
        BandageModel::Hyper(_) => Tag::Hyper,
        BandageModel::HyperUtil(_) => Tag::HyperUtil,
        BandageModel::Shapefile(_) => Tag::Shapefile,
        BandageModel::EventLoop(_) => Tag::EventLoop,
        BandageModel::WinOs(_) => Tag::WinOs,
        BandageModel::WinitIcon(_) => Tag::WinitIcon,
        BandageModel::WgpuSurface(_) => Tag::WgpuSurface,
        BandageModel::WgpuDevice(_) => Tag::WgpuDevice,
        BandageModel::Nom(_) => Tag::Nom,
        BandageModel::Tiberius(_) => Tag::Tiberius,
        BandageModel::Dotenv(_) => Tag::Dotenv,
        BandageModel::Jiff(_) => Tag::Jiff,
    }
}

/// The payload of a model value.
pub open spec fn payload_of(m: BandageModel) -> Payload {
    match m {
        BandageModel::Auth => Payload::Absent,
        BandageModel::Env(s) => Payload::Message(s),
        BandageModel::FileName(s) => Payload::Message(s),
        BandageModel::Int(s) => Payload::Message(s),
        BandageModel::Io(s) => Payload::Message(s),
        BandageModel::Parse => Payload::Absent,
        BandageModel::UserBuild(fs) => Payload::Fields(fs),
        BandageModel::Utf8(s) => Payload::Message(s),
        BandageModel::Hint(s) => Payload::Message(s),
        BandageModel::Unknown => Payload::Absent,
        BandageModel::BadIcon(s) => Payload::Message(s),
        BandageModel::Bin(s) => Payload::Message(s),
        BandageModel::Byte(s) => Payload::Message(s),
        BandageModel::Csv(s) => Payload::Message(s),
        BandageModel::Http(s) => Payload::Message(s),
        BandageModel::Image(s) => Payload::Message(s),
        BandageModel::Oauth2(s) => Payload::Message(s),
        BandageModel::Serialize(s) => Payload::Message(s),
        BandageModel::SerdeJson(s) => Payload::Message(s),
        BandageModel::Sqlx(s) => Payload::Message(s),
        BandageModel::Migrate(s) => Payload::Message(s),
        BandageModel::Uuid(s) => Payload::Message(s),
        BandageModel::Url(s) => Payload::Message(s),
        BandageModel::BitMap(s) => Payload::Message(s),
        BandageModel::Plot(s) => Payload::Message(s),
        BandageModel::GeoJson(s) => Payload::Message(s),
        BandageModel::TraceInit(s) => Payload::Message(s),
        BandageModel::Axum(s) => Payload::Message(s),
        BandageModel::AxumHttp(s) => Payload::Message(s),
        BandageModel::Hyper(s) => Payload::Message(s),
        BandageModel::HyperUtil(s) => Payload::Message(s),
        BandageModel::Shapefile(s) => Payload::Message(s),
        BandageModel::EventLoop(s) => Payload::Message(s),
        BandageModel::WinOs(s) => Payload::Message(s),
        BandageModel::WinitIcon(s) => Payload::Message(s),
        BandageModel::WgpuSurface(s) => Payload::Message(s),
        BandageModel::WgpuDevice(s) => Payload::Message(s),
        BandageModel::Nom(s) => Payload::Message(s),
        BandageModel::Tiberius(s) => Payload::Message(s),
        BandageModel::Dotenv(s) => Payload::Message(s),
        BandageModel::Jiff(s) => Payload::Message(s),
    }
}

/// The wrapped foreign error's message text, for tags that wrap one.
pub open spec fn spec_payload_message(m: BandageModel) -> Option<Seq<char>> {
    match payload_of(m) {
        Payload::Message(s) => Some(s),
        _ => None,
    }
}

/// The fixed text `describe` places before the payload.
pub open spec fn spec_prefix(m: BandageModel) -> Seq<char> {
    match m {
        BandageModel::Auth => "Authorization failed."@,
        BandageModel::Env(_) => "Could not read environmental variables from .env: "@,
        BandageModel::FileName(_) => "Bad file name \""@,
        BandageModel::Int(_) => "Could not parse integer from string: "@,
        BandageModel::Io(_) => "Input/output error from std: "@,
        BandageModel::Parse => "Parse error."@,
        BandageModel::UserBuild(_) => "Value not provided for ["@,
        BandageModel::Utf8(_) => "Utf8 error: "@,
        BandageModel::Hint(_) => "Hint: "@,
        BandageModel::Unknown => "Unexpected error."@,
        BandageModel::BadIcon(_) => "Icon loading error: "@,
        BandageModel::Bin(_) => "Could not serialize to binary: "@,
        BandageModel::Byte(_) => "Byte conversion failed: "@,
        BandageModel::Csv(_) => "Could not make CSV writer: "@,
        BandageModel::Http(_) => "HTTP request error: "@,
        BandageModel::Image(_) => "Image processing error: "@,
        BandageModel::Oauth2(_) => "Oauth2 error: "@,
        BandageModel::Serialize(_) => "Deserialize error: "@,
        BandageModel::SerdeJson(_) => "Deserialization error: "@,
        BandageModel::Sqlx(_) => "Sqlx command error: "@,
        BandageModel::Migrate(_) => "Sqlx migration error: "@,
        BandageModel::Uuid(_) => "Uuid conversion failed: "@,
        BandageModel::Url(_) => "Parse error: "@,
        BandageModel::BitMap(_) => "Plotting backend error: "@,
        BandageModel::Plot(_) => "Plotting drawing error: "@,
        BandageModel::GeoJson(_) => "Error reading geojson file: "@,
        BandageModel::TraceInit(_) => "Problem initializing subscriber: "@,
        BandageModel::Axum(_) => "Axum error: "@,
        BandageModel::AxumHttp(_) => "Axum http error: "@,
        BandageModel::Hyper(_) => "Legacy client error: "@,
        BandageModel::HyperUtil(_) => "Legacy client error: "@,
        BandageModel::Shapefile(_) => "Shapefile error: "@,
        BandageModel::EventLoop(_) => "Winit event loop error: "@,
        BandageModel::WinOs(_) => "OS error: "@,
        BandageModel::WinitIcon(_) => "Winit icon error: "@,
        BandageModel::WgpuSurface(_) => "From wgpu: "@,
        BandageModel::WgpuDevice(_) => "From wgpu: "@,
        BandageModel::Nom(_) => "Nom error: "@,
        BandageModel::Tiberius(_) => "Tiberius error: "@,
        BandageModel::Dotenv(_) => "Dotenvy error: "@,
        BandageModel::Jiff(_) => "Jiff error: "@,
    }
}

/// The fixed text `describe` places after the payload.
pub open spec fn spec_suffix(m: BandageModel) -> Seq<char> {
    match m {
        BandageModel::FileName(_) => "\"."@,
        BandageModel::UserBuild(_) => "]."@,
        _ => Seq::<char>::empty(),
    }
}

/// One field name as it appears in a rendered field list: quoted.
pub open spec fn spec_quoted(s: Seq<char>) -> Seq<char> {
    "\""@ + s + "\""@
}

/// The rendered body of a field list: the quoted names, in order, separated
/// by a comma and a space.
pub open spec fn spec_fields_body(fs: Seq<Seq<char>>) -> Seq<char>
    decreases fs.len(),
{
    if fs.len() == 0 {
        Seq::<char>::empty()
    } else if fs.len() == 1 {
        spec_quoted(fs[0])
    } else {
        spec_fields_body(fs.drop_last()) + ", "@ + spec_quoted(fs.last())
    }
}

/// The payload as `describe` renders it.
pub open spec fn spec_payload_text(m: BandageModel) -> Seq<char> {
    match payload_of(m) {
        Payload::Absent => Seq::<char>::empty(),
        Payload::Message(s) => s,
        Payload::Fields(fs) => spec_fields_body(fs),
    }
}

/// The full message `describe` returns for a model value.
pub open spec fn spec_describe(m: BandageModel) -> Seq<char> {
    spec_prefix(m) + spec_payload_text(m) + spec_suffix(m)
}

/// Every tag's fixed prefix is non-empty.
pub proof fn lemma_prefix_nonempty(m: BandageModel)
    ensures
        spec_prefix(m).len() > 0,
{
    reveal_strlit("Authorization failed.");
    reveal_strlit("Could not read environmental variables from .env: ");
    reveal_strlit("Bad file name \"");
    reveal_strlit("Could not parse integer from string: ");
    reveal_strlit("Input/output error from std: ");
    reveal_strlit("Parse error.");
    reveal_strlit("Value not provided for [");
    reveal_strlit("Utf8 error: ");
    reveal_strlit("Hint: ");
    reveal_strlit("Unexpected error.");
    reveal_strlit("Could not serialize to binary: ");
    reveal_strlit("Byte conversion failed: ");
    reveal_strlit("Could not make CSV writer: ");
    reveal_strlit("HTTP request error: ");
    reveal_strlit("Image processing error: ");
    reveal_strlit("Oauth2 error: ");
    reveal_strlit("Deserialize error: ");
    reveal_strlit("Deserialization error: ");
    reveal_strlit("Sqlx command error: ");
    reveal_strlit("Sqlx migration error: ");
    reveal_strlit("Uuid conversion failed: ");
    reveal_strlit("Parse error: ");
    reveal_strlit("Plotting backend error: ");
    reveal_strlit("Plotting drawing error: ");
    reveal_strlit("Error reading geojson file: ");
    reveal_strlit("Problem initializing subscriber: ");
    reveal_strlit("Axum error: ");
    reveal_strlit("Axum http error: ");
    reveal_strlit("Legacy client error: ");
    reveal_strlit("Shapefile error: ");
    reveal_strlit("Icon loading error: ");
    reveal_strlit("Winit event loop error: ");
    reveal_strlit("OS error: ");
    reveal_strlit("Winit icon error: ");
    reveal_strlit("From wgpu: ");
    reveal_strlit("Nom error: ");
    reveal_strlit("Tiberius error: ");
    reveal_strlit("Dotenvy error: ");
    reveal_strlit("Jiff error: ");
}

/// The rendered message is never empty, whatever the tag and payload.
pub proof fn lemma_describe_nonempty(m: BandageModel)
    ensures
        spec_describe(m).len() > 0,
{
    lemma_prefix_nonempty(m);
}

/// For a tag that wraps a foreign error, the rendered message contains the
/// foreign error's own message text unchanged, right after the fixed prefix.
pub proof fn lemma_describe_contains_message(m: BandageModel, s: Seq<char>)
    requires
        spec_payload_message(m) == Some(s),
    ensures
        spec_prefix(m).len() + s.len() <= spec_describe(m).len(),
        spec_describe(m).subrange(
            spec_prefix(m).len() as int,
            spec_prefix(m).len() + s.len() as int,
        ) == s,
{
    assert(spec_describe(m).subrange(
        spec_prefix(m).len() as int,
        spec_prefix(m).len() + s.len() as int,
    ) =~= s);
}

/// Two model values are equal exactly when their tags and payloads agree:
/// wrapping is injective, and values of distinct origin stay distinct.
pub proof fn lemma_model_determined(x: BandageModel, y: BandageModel)
    ensures
        (x == y) <==> (tag_of(x) == tag_of(y) && payload_of(x) == payload_of(y)),
{
}

/// Wrapping a foreign error's message and then inspecting the payload gives
/// back exactly the message that was wrapped.
pub proof fn lemma_wrap_then_inspect(s: Seq<char>)
    ensures
        spec_payload_message(BandageModel::Env(s)) == Some(s),
        spec_payload_message(BandageModel::FileName(s)) == Some(s),
        spec_payload_message(BandageModel::Int(s)) == Some(s),
        spec_payload_message(BandageModel::Io(s)) == Some(s),
        spec_payload_message(BandageModel::Utf8(s)) == Some(s),
        spec_payload_message(BandageModel::Hint(s)) == Some(s),
        spec_payload_message(BandageModel::Bin(s)) == Some(s),
        spec_payload_message(BandageModel::Byte(s)) == Some(s),
        spec_payload_message(BandageModel::Csv(s)) == Some(s),
        spec_payload_message(BandageModel::Http(s)) == Some(s),
        spec_payload_message(BandageModel::Image(s)) == Some(s),
        spec_payload_message(BandageModel::Oauth2(s)) == Some(s),
        spec_payload_message(BandageModel::Serialize(s)) == Some(s),
        spec_payload_message(BandageModel::SerdeJson(s)) == Some(s),
        spec_payload_message(BandageModel::Sqlx(s)) == Some(s),
        spec_payload_message(BandageModel::Migrate(s)) == Some(s),
        spec_payload_message(BandageModel::Uuid(s)) == Some(s),
        spec_payload_message(BandageModel::Url(s)) == Some(s),
        spec_payload_message(BandageModel::BitMap(s)) == Some(s),
        spec_payload_message(BandageModel::Plot(s)) == Some(s),
        spec_payload_message(BandageModel::GeoJson(s)) == Some(s),
        spec_payload_message(BandageModel::TraceInit(s)) == Some(s),
        spec_payload_message(BandageModel::Axum(s)) == Some(s),
        spec_payload_message(BandageModel::AxumHttp(s)) == Some(s),
        spec_payload_message(BandageModel::Hyper(s)) == Some(s),
        spec_payload_message(BandageModel::HyperUtil(s)) == Some(s),
        spec_payload_message(BandageModel::Shapefile(s)) == Some(s),
        spec_payload_message(BandageModel::BadIcon(s)) == Some(s),
        spec_payload_message(BandageModel::EventLoop(s)) == Some(s),
        spec_payload_message(BandageModel::WinOs(s)) == Some(s),
        spec_payload_message(BandageModel::WinitIcon(s)) == Some(s),
        spec_payload_message(BandageModel::WgpuSurface(s)) == Some(s),
        spec_payload_message(BandageModel::WgpuDevice(s)) == Some(s),
        spec_payload_message(BandageModel::Nom(s)) == Some(s),
        spec_payload_message(BandageModel::Tiberius(s)) == Some(s),
        spec_payload_message(BandageModel::Dotenv(s)) == Some(s),
        spec_payload_message(BandageModel::Jiff(s)) == Some(s),
{
}

/// Appending one more field name extends the rendered body by a separator
/// (after the first field) and the quoted name.
pub proof fn lemma_fields_body_snoc(fs: Seq<Seq<char>>, i: int)
    requires
        0 <= i < fs.len(),
    ensures
        spec_fields_body(fs.take(i + 1)) == if i == 0 {
            spec_quoted(fs[0])
        } else {
            spec_fields_body(fs.take(i)) + ", "@ + spec_quoted(fs[i])
        },
{
    let t = fs.take(i + 1);
    if i == 0 {
        assert(t[0] == fs[0]);
    } else {
        assert(t.drop_last() =~= fs.take(i));
        assert(t.last() == fs[i]);
    }
}

} // verus!
