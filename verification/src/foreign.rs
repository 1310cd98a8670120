//! Declarations of the foreign error types the union can wrap, and trusted
//! wrappers that render each one to its own message text.
//!
//! Each wrapper's body only calls the foreign `Display` impl; what the
//! library guarantees about the wrapped message is stated and proved over the
//! `String` the wrapper hands back, in [`crate::error`].
use vstd::prelude::*;

verus! {

#[verifier::external_type_specification]
#[verifier::external_body]
pub struct ExIoError(std::io::Error);

#[verifier::external_type_specification]
#[verifier::external_body]
pub struct ExParseIntError(std::num::ParseIntError);

#[verifier::external_type_specification]
#[verifier::external_body]
pub struct ExUtf8Error(std::str::Utf8Error);

#[verifier::external_type_specification]
#[verifier::external_body]
pub struct ExBincodeErrorKind(bincode::ErrorKind);

#[verifier::external_type_specification]
#[verifier::external_body]
pub struct ExByteUnitParseError(byte_unit::ParseError);

#[verifier::external_type_specification]
#[verifier::external_body]
pub struct ExCsvError(csv::Error);

#[verifier::external_type_specification]
#[verifier::external_body]
pub struct ExDotenvyError(dotenvy::Error);

#[verifier::external_type_specification]
#[verifier::external_body]
pub struct ExGeoJsonError(geojson::Error);

#[verifier::external_type_specification]
#[verifier::external_body]
pub struct ExHyperError(hyper::Error);

#[verifier::external_type_specification]
#[verifier::external_body]
pub struct ExHyperUtilLegacyError(hyper_util::client::legacy::Error);

#[verifier::external_type_specification]
#[verifier::external_body]
pub struct ExImageError(image::error::ImageError);

#[verifier::external_type_specification]
#[verifier::external_body]
pub struct ExJiffError(jiff::Error);

#[verifier::external_type_specification]
#[verifier::external_body]
#[verifier::reject_recursive_types(I)]
pub struct ExNomError<I>(nom::error::Error<I>);

#[verifier::external_type_specification]
#[verifier::external_body]
#[verifier::reject_recursive_types(Failure)]
#[verifier::reject_recursive_types(Error)]
pub struct ExNomErr<Failure, Error>(nom::Err<Failure, Error>);

#[verifier::external_type_specification]
#[verifier::external_body]
pub struct ExBitMapBackendError(plotters_bitmap::BitMapBackendError);

#[verifier::external_type_specification]
#[verifier::external_body]
pub struct ExReqwestError(reqwest::Error);

#[verifier::external_type_specification]
#[verifier::external_body]
pub struct ExSerdeValueError(serde::de::value::Error);

#[verifier::external_type_specification]
#[verifier::external_body]
pub struct ExSerdeJsonError(serde_json::Error);

#[verifier::external_type_specification]
#[verifier::external_body]
pub struct ExShapefileError(shapefile::Error);

#[verifier::external_type_specification]
#[verifier::external_body]
pub struct ExSqlxError(sqlx::Error);

#[verifier::external_type_specification]
#[verifier::external_body]
pub struct ExMigrateError(sqlx::migrate::MigrateError);

#[verifier::external_type_specification]
#[verifier::external_body]
pub struct ExTiberiusError(tiberius::error::Error);

#[verifier::external_type_specification]
#[verifier::external_body]
pub struct ExTryInitError(tracing_subscriber::util::TryInitError);

#[verifier::external_type_specification]
#[verifier::external_body]
pub struct ExUrlParseError(url::ParseError);

#[verifier::external_type_specification]
#[verifier::external_body]
pub struct ExUuidError(uuid::Error);

#[verifier::external_type_specification]
#[verifier::external_body]
pub struct ExAxumError(axum::Error);

#[verifier::external_type_specification]
#[verifier::external_body]
pub struct ExAxumHttpError(axum::http::Error);

#[verifier::external_type_specification]
#[verifier::external_body]
#[verifier::reject_recursive_types(T)]
pub struct ExPoisonError<T>(std::sync::PoisonError<T>);

pub uninterp spec fn poison_message_text(lock_poisoned: bool) -> Seq<char>;

/// Relies on the `Display` impl of `std::sync::PoisonError`, which renders one
/// fixed text, whatever the lock's payload type or value; the name carries
/// that text.
#[verifier::external_body]
pub(crate) fn poison_message<T>(e: &std::sync::PoisonError<T>) -> (r: String)
    ensures
        r@ == poison_message_text(true),
{
    format!("{}", e)
}

/// Relies on the `Display` impl of `std::io::Error` to render its message.
#[verifier::external_body]
pub(crate) fn io_message(e: &std::io::Error) -> String {
    format!("{}", e)
}

pub uninterp spec fn parse_int_message_of(e: std::num::ParseIntError) -> Seq<char>;

/// Relies on the `Display` impl of `std::num::ParseIntError`: the rendered
/// text depends on the error value alone.
#[verifier::external_body]
pub(crate) fn parse_int_message(e: &std::num::ParseIntError) -> (r: String)
    ensures
        r@ == parse_int_message_of(*e),
{
    format!("{}", e)
}

pub uninterp spec fn utf8_message_of(e: std::str::Utf8Error) -> Seq<char>;

/// Relies on the `Display` impl of `std::str::Utf8Error`: the rendered text
/// depends on the error value alone.
#[verifier::external_body]
pub(crate) fn utf8_message(e: &std::str::Utf8Error) -> (r: String)
    ensures
        r@ == utf8_message_of(*e),
{
    format!("{}", e)
}

/// Relies on the `Display` impl of `bincode::ErrorKind` to render its message.
#[verifier::external_body]
pub(crate) fn bincode_message(e: &bincode::ErrorKind) -> String {
    format!("{}", e)
}

pub uninterp spec fn byte_unit_message_of(e: byte_unit::ParseError) -> Seq<char>;

/// Relies on the `Display` impl of `byte_unit::ParseError`, which formats only
/// the error's own fields: the rendered text depends on the value alone.
#[verifier::external_body]
pub(crate) fn byte_unit_message(e: &byte_unit::ParseError) -> (r: String)
    ensures
        r@ == byte_unit_message_of(*e),
{
    format!("{}", e)
}

/// Relies on the `Display` impl of `csv::Error` to render its message.
#[verifier::external_body]
pub(crate) fn csv_message(e: &csv::Error) -> String {
    format!("{}", e)
}

/// Relies on the `Display` impl of `dotenvy::Error` to render its message.
#[verifier::external_body]
pub(crate) fn dotenvy_message(e: &dotenvy::Error) -> String {
    format!("{}", e)
}

/// Relies on the `Display` impl of `geojson::Error` to render its message.
#[verifier::external_body]
pub(crate) fn geojson_message(e: &geojson::Error) -> String {
    format!("{}", e)
}

/// Relies on the `Display` impl of `hyper::Error` to render its message.
#[verifier::external_body]
pub(crate) fn hyper_message(e: &hyper::Error) -> String {
    format!("{}", e)
}

/// Relies on the `Display` impl of `hyper_util::client::legacy::Error` to
/// render its message.
#[verifier::external_body]
pub(crate) fn hyper_util_message(e: &hyper_util::client::legacy::Error) -> String {
    format!("{}", e)
}

/// Relies on the `Display` impl of `image::error::ImageError` to render its message.
#[verifier::external_body]
pub(crate) fn image_message(e: &image::error::ImageError) -> String {
    format!("{}", e)
}

/// Relies on the `Display` impl of `jiff::Error` to render its message.
#[verifier::external_body]
pub(crate) fn jiff_message(e: &jiff::Error) -> String {
    format!("{}", e)
}

pub uninterp spec fn nom_message_of(e: nom::Err<nom::error::Error<&str>>) -> Seq<char>;

/// Relies on the `Display` impl of `nom::Err`, which formats only the error's
/// own fields: the rendered text depends on the value alone.
#[verifier::external_body]
pub(crate) fn nom_message(e: &nom::Err<nom::error::Error<&str>>) -> (r: String)
    ensures
        r@ == nom_message_of(*e),
{
    format!("{}", e)
}

/// Relies on the `Display` impl of `plotters_bitmap::BitMapBackendError` to
/// render its message.
#[verifier::external_body]
pub(crate) fn bitmap_message(e: &plotters_bitmap::BitMapBackendError) -> String {
    format!("{}", e)
}

/// Relies on the `Display` impl of `reqwest::Error` to render its message.
#[verifier::external_body]
pub(crate) fn reqwest_message(e: &reqwest::Error) -> String {
    format!("{}", e)
}

pub uninterp spec fn serde_value_message_of(e: serde::de::value::Error) -> Seq<char>;

/// Relies on the `Display` impl of `serde::de::value::Error`, which writes the
/// message string the error stores: the rendered text depends on the value
/// alone.
#[verifier::external_body]
pub(crate) fn serde_value_message(e: &serde::de::value::Error) -> (r: String)
    ensures
        r@ == serde_value_message_of(*e),
{
    format!("{}", e)
}

/// Relies on the `Display` impl of `serde_json::Error` to render its message.
#[verifier::external_body]
pub(crate) fn serde_json_message(e: &serde_json::Error) -> String {
    format!("{}", e)
}

/// Relies on the `Display` impl of `shapefile::Error` to render its message.
#[verifier::external_body]
pub(crate) fn shapefile_message(e: &shapefile::Error) -> String {
    format!("{}", e)
}

/// Relies on the `Display` impl of `sqlx::Error` to render its message.
#[verifier::external_body]
pub(crate) fn sqlx_message(e: &sqlx::Error) -> String {
    format!("{}", e)
}

/// Relies on the `Display` impl of `sqlx::migrate::MigrateError` to render its
/// message.
#[verifier::external_body]
pub(crate) fn migrate_message(e: &sqlx::migrate::MigrateError) -> String {
    format!("{}", e)
}

/// Relies on the `Display` impl of `tiberius::error::Error` to render its message.
#[verifier::external_body]
pub(crate) fn tiberius_message(e: &tiberius::error::Error) -> String {
    format!("{}", e)
}

/// Relies on the `Display` impl of `tracing_subscriber::util::TryInitError` to
/// render its message.
#[verifier::external_body]
pub(crate) fn try_init_message(e: &tracing_subscriber::util::TryInitError) -> String {
    format!("{}", e)
}

pub uninterp spec fn url_message_of(e: url::ParseError) -> Seq<char>;

/// Relies on the `Display` impl of `url::ParseError`, a fixed text per
/// variant: the rendered text depends on the value alone.
#[verifier::external_body]
pub(crate) fn url_message(e: &url::ParseError) -> (r: String)
    ensures
        r@ == url_message_of(*e),
{
    format!("{}", e)
}

pub uninterp spec fn uuid_message_of(e: uuid::Error) -> Seq<char>;

/// Relies on the `Display` impl of `uuid::Error`, which formats only the
/// error's own fields: the rendered text depends on the value alone.
#[verifier::external_body]
pub(crate) fn uuid_message(e: &uuid::Error) -> (r: String)
    ensures
        r@ == uuid_message_of(*e),
{
    format!("{}", e)
}

/// Relies on the `Display` impl of `axum::Error` to render its message.
#[verifier::external_body]
pub(crate) fn axum_message(e: &axum::Error) -> String {
    format!("{}", e)
}

/// Relies on the `Display` impl of `axum::http::Error` to render its message.
#[verifier::external_body]
pub(crate) fn axum_http_message(e: &axum::http::Error) -> String {
    format!("{}", e)
}

} // verus!
