//! Conversions from each registered foreign error type into [`Bandage`].
//!
//! Every conversion is total: it wraps the foreign error's rendered message
//! in the one tag documented for that source type, and cannot fail.
//!
//! Where the foreign rendering depends on the error value alone (the std
//! parse and UTF-8 errors, lock poisoning, and the nom, url, uuid,
//! byte_unit and serde value errors), the contract pins the carried message
//! through a name for that rendering, so converting equal values provably
//! yields equal errors. The remaining sources can wrap an operating-system
//! error, whose rendered text comes from the platform and its locale and so
//! is not a function of the value alone; naming it would overstate what the
//! foreign source shows, so those contracts pin the tag, and everything done
//! with the carried message is exactly specified on `describe` and
//! `payload_message`.
use crate::error::Bandage;
use crate::foreign;
use crate::model::BandageModel;
use vstd::prelude::*;

verus! {

impl Bandage {
    /// Wraps a poisoned-lock failure in the `Hint` tag, keeping its message.
    pub fn from_poison<T>(e: std::sync::PoisonError<T>) -> (r: Bandage)
        ensures
            r@ == BandageModel::Hint(foreign::poison_message_text(true)),
    {
        Bandage::Hint(foreign::poison_message(&e))
    }

    /// Wraps a `std::io::Error` in the `Io` tag.
    pub fn from_io(e: std::io::Error) -> (r: Bandage)
        ensures
            r@ is Io,
    {
        Bandage::Io(foreign::io_message(&e))
    }

    /// Wraps a `std::num::ParseIntError` in the `Int` tag.
    pub fn from_parse_int(e: std::num::ParseIntError) -> (r: Bandage)
        ensures
            r@ == BandageModel::Int(foreign::parse_int_message_of(e)),
    {
        Bandage::Int(foreign::parse_int_message(&e))
    }

    /// Wraps a `std::str::Utf8Error` in the `Utf8` tag.
    pub fn from_utf8(e: std::str::Utf8Error) -> (r: Bandage)
        ensures
            r@ == BandageModel::Utf8(foreign::utf8_message_of(e)),
    {
        Bandage::Utf8(foreign::utf8_message(&e))
    }

    /// Wraps a `bincode` error in the `Bin` tag.
    pub fn from_bincode(e: Box<bincode::ErrorKind>) -> (r: Bandage)
        ensures
            r@ is Bin,
    {
        Bandage::Bin(foreign::bincode_message(&e))
    }

    /// Wraps a `byte_unit::ParseError` in the `Byte` tag.
    pub fn from_byte_unit(e: byte_unit::ParseError) -> (r: Bandage)
        ensures
            r@ == BandageModel::Byte(foreign::byte_unit_message_of(e)),
    {
        Bandage::Byte(foreign::byte_unit_message(&e))
    }

    /// Wraps a `csv::Error` in the `Csv` tag.
    pub fn from_csv(e: csv::Error) -> (r: Bandage)
        ensures
            r@ is Csv,
    {
        Bandage::Csv(foreign::csv_message(&e))
    }

    /// Wraps a `dotenvy::Error` in the `Dotenv` tag.
    pub fn from_dotenvy(e: dotenvy::Error) -> (r: Bandage)
        ensures
            r@ is Dotenv,
    {
        Bandage::Dotenv(foreign::dotenvy_message(&e))
    }

    /// Wraps a `geojson::Error` in the `GeoJson` tag.
    pub fn from_geojson(e: geojson::Error) -> (r: Bandage)
        ensures
            r@ is GeoJson,
    {
        Bandage::GeoJson(foreign::geojson_message(&e))
    }

    /// Wraps a `hyper::Error` in the `Hyper` tag.
    pub fn from_hyper(e: hyper::Error) -> (r: Bandage)
        ensures
            r@ is Hyper,
    {
        Bandage::Hyper(foreign::hyper_message(&e))
    }

    /// Wraps a `hyper_util::client::legacy::Error` in the `HyperUtil` tag.
    pub fn from_hyper_util(e: hyper_util::client::legacy::Error) -> (r: Bandage)
        ensures
            r@ is HyperUtil,
    {
        Bandage::HyperUtil(foreign::hyper_util_message(&e))
    }

    /// Wraps an `image::error::ImageError` in the `Image` tag.
    pub fn from_image(e: image::error::ImageError) -> (r: Bandage)
        ensures
            r@ is Image,
    {
        Bandage::Image(foreign::image_message(&e))
    }

    /// Wraps a `jiff::Error` in the `Jiff` tag.
    pub fn from_jiff(e: jiff::Error) -> (r: Bandage)
        ensures
            r@ is Jiff,
    {
        Bandage::Jiff(foreign::jiff_message(&e))
    }

    /// Wraps a `nom` parser error in the `Nom` tag.
    pub fn from_nom<'a>(e: nom::Err<nom::error::Error<&'a str>>) -> (r: Bandage)
        ensures
            r@ == BandageModel::Nom(foreign::nom_message_of(e)),
    {
        Bandage::Nom(foreign::nom_message(&e))
    }

    /// Wraps a `plotters_bitmap::BitMapBackendError` in the `BitMap` tag.
    pub fn from_bitmap(e: plotters_bitmap::BitMapBackendError) -> (r: Bandage)
        ensures
            r@ is BitMap,
    {
        Bandage::BitMap(foreign::bitmap_message(&e))
    }

    /// Wraps a `reqwest::Error` in the `Http` tag.
    pub fn from_reqwest(e: reqwest::Error) -> (r: Bandage)
        ensures
            r@ is Http,
    {
        Bandage::Http(foreign::reqwest_message(&e))
    }

    /// Wraps a `serde::de::value::Error` in the `Serialize` tag.
    pub fn from_serde_value(e: serde::de::value::Error) -> (r: Bandage)
        ensures
            r@ == BandageModel::Serialize(foreign::serde_value_message_of(e)),
    {
        Bandage::Serialize(foreign::serde_value_message(&e))
    }

    /// Wraps a `serde_json::Error` in the `SerdeJson` tag.
    pub fn from_serde_json(e: serde_json::Error) -> (r: Bandage)
        ensures
            r@ is SerdeJson,
    {
        Bandage::SerdeJson(foreign::serde_json_message(&e))
    }

    /// Wraps a `shapefile::Error` in the `Shapefile` tag.
    pub fn from_shapefile(e: shapefile::Error) -> (r: Bandage)
        ensures
            r@ is Shapefile,
    {
        Bandage::Shapefile(foreign::shapefile_message(&e))
    }

    /// Wraps a `sqlx::Error` in the `Sqlx` tag.
    pub fn from_sqlx(e: sqlx::Error) -> (r: Bandage)
        ensures
            r@ is Sqlx,
    {
        Bandage::Sqlx(foreign::sqlx_message(&e))
    }

    /// Wraps a `sqlx::migrate::MigrateError` in the `Migrate` tag.
    pub fn from_migrate(e: sqlx::migrate::MigrateError) -> (r: Bandage)
        ensures
            r@ is Migrate,
    {
        Bandage::Migrate(foreign::migrate_message(&e))
    }

    /// Wraps a `tiberius::error::Error` in the `Tiberius` tag.
    pub fn from_tiberius(e: tiberius::error::Error) -> (r: Bandage)
        ensures
            r@ is Tiberius,
    {
        Bandage::Tiberius(foreign::tiberius_message(&e))
    }

    /// Wraps a `tracing_subscriber::util::TryInitError` in the `TraceInit` tag.
    pub fn from_try_init(e: tracing_subscriber::util::TryInitError) -> (r: Bandage)
        ensures
            r@ is TraceInit,
    {
        Bandage::TraceInit(foreign::try_init_message(&e))
    }

    /// Wraps a `url::ParseError` in the `Url` tag.
    pub fn from_url(e: url::ParseError) -> (r: Bandage)
        ensures
            r@ == BandageModel::Url(foreign::url_message_of(e)),
    {
        Bandage::Url(foreign::url_message(&e))
    }

    /// Wraps a `uuid::Error` in the `Uuid` tag.
    pub fn from_uuid(e: uuid::Error) -> (r: Bandage)
        ensures
            r@ == BandageModel::Uuid(foreign::uuid_message_of(e)),
    {
        Bandage::Uuid(foreign::uuid_message(&e))
    }

    /// Wraps an `axum::Error` in the `Axum` tag.
    pub fn from_axum(e: axum::Error) -> (r: Bandage)
        ensures
            r@ is Axum,
    {
        Bandage::Axum(foreign::axum_message(&e))
    }

    /// Wraps an `axum::http::Error` in the `AxumHttp` tag.
    pub fn from_axum_http(e: axum::http::Error) -> (r: Bandage)
        ensures
            r@ is AxumHttp,
    {
        Bandage::AxumHttp(foreign::axum_http_message(&e))
    }
}

} // verus!
