//! The service operations behind the HTTP surface: each function takes the
//! already-decoded request values, drives the registry or the generator,
//! and shapes the typed response the transport layer serializes.
//!
//! The passphrase appears in exactly one response: the creation response.

use vstd::prelude::*;
use vstd::string::StringExecFns;

use crate::links::parse_link;
use crate::links::url_parse_of;
use crate::qr::bitmap_of;
use crate::qr::bitmap_total;
use crate::qr::jpeg_bytes_of;
use crate::qr::payload_of;
use crate::qr::png_bytes_of;
use crate::qr::qr_symbol_of;
use crate::qr::svg_of;
use crate::qr::GenerateOutcome;
use crate::qr::QrCodeGenerator;
use crate::qr::QrImageType;
use crate::registry::now_millis;
use crate::registry::LinkModel;
use crate::registry::QrCodeDatabase;
use crate::text::uuid_str;
use crate::text::uuid_text;

verus! {

/// The sections of the HTTP surface.
#[derive(Clone, Copy, Debug, PartialEq, Eq, Structural)]
pub enum ApiTags {
    Health,
    QrCode,
    Redirect,
    Version,
    Image,
}

/// A record as returned to callers. The passphrase field is filled only
/// in the creation response and stays `None` on every read.
pub struct QrCodeResponse {
    pub id: u128,
    pub link: String,
    pub passphrase: Option<String>,
}

/// The response to a creation request.
pub enum QrCodeCreateResponse {
    /// The stored record, including the one-time passphrase.
    Created(QrCodeResponse),
    /// The request failed validation or storage; nothing was stored.
    Database(String),
}

/// The response to a read request.
pub enum QrCodeGetResponse {
    Found(QrCodeResponse),
    NotFound(String),
}

/// The response to an update request.
pub enum QrCodeUpdateResponse {
    /// The id of the updated record, in its canonical textual form.
    Updated(String),
    /// Unknown id or wrong passphrase: deliberately the same signal, so
    /// a caller cannot probe which ids exist.
    NotFound(String),
    /// The supplied link is not a well-formed absolute URL.
    BadRequest(String),
}

/// The response to a delete request.
pub enum QrCodeDeleteResponse {
    Deleted,
    /// Unknown id or wrong passphrase: deliberately the same signal.
    NotFound(String),
}

/// The response to a redirect request.
pub enum RedirectResponse {
    /// The location to send the caller to.
    Redirect(String),
    NotFound(String),
    /// A stored link failed to parse: an integrity fault that the
    /// registry's validation makes impossible here.
    InvalidUrl(String),
    /// An underlying storage failure: the in-process store cannot fail.
    DatabaseError(String),
}

/// The response to an image request.
pub enum ImageResponse {
    Png(Vec<u8>),
    Jpg(Vec<u8>),
    /// SVG bytes with their content-disposition header value.
    Svg(Vec<u8>, String),
    NotFound(String),
    InternalError(String),
}

/// The passphrase-gated registry operations.
pub struct QrCodeApi;

impl QrCodeApi {
    /// Validates the link, stores a fresh record, and returns it with
    /// the one-time passphrase.
    pub fn create(&self, db: &mut QrCodeDatabase, link: &str) -> (r: QrCodeCreateResponse)
        ensures
            match r {
                QrCodeCreateResponse::Created(resp) => {
                    &&& url_parse_of(link@) == Some(resp.link@)
                    &&& !old(db)@.contains_key(resp.id)
                    &&& final(db)@.contains_key(resp.id)
                    &&& final(db)@ == old(db)@.insert(resp.id, final(db)@[resp.id])
                    &&& final(db)@[resp.id].link == resp.link@
                    &&& final(db)@[resp.id].id == resp.id
                    &&& final(db)@[resp.id].modified_at is None
                    &&& (resp.passphrase matches Some(p) && p@ == final(db)@[resp.id].passphrase)
                },
                QrCodeCreateResponse::Database(msg) => final(db)@ == old(db)@ && msg@
                    == "Could not create qr code because of an internal error."@,
            },
            url_parse_of(link@) is None ==> r is Database,
    {
        match db.create(link) {
            Ok(rec) => QrCodeCreateResponse::Created(
                QrCodeResponse { id: rec.id, link: rec.link, passphrase: Some(rec.passphrase) },
            ),
            Err(_) => QrCodeCreateResponse::Database(
                "Could not create qr code because of an internal error.".to_owned(),
            ),
        }
    }

    /// Reads the record under `id`; the passphrase is stripped from the
    /// response.
    pub fn get(&self, db: &QrCodeDatabase, id: u128) -> (r: QrCodeGetResponse)
        ensures
            match r {
                QrCodeGetResponse::Found(resp) => {
                    &&& db@.contains_key(id)
                    &&& resp.id == id
                    &&& resp.link@ == db@[id].link
                    &&& resp.passphrase is None
                },
                QrCodeGetResponse::NotFound(msg) => !db@.contains_key(id) && msg@
                    == "No qr code could be found for this id."@,
            },
    {
        match db.get(id) {
            Some(rec) => QrCodeGetResponse::Found(
                QrCodeResponse { id: rec.id, link: rec.link, passphrase: None },
            ),
            None => QrCodeGetResponse::NotFound(
                "No qr code could be found for this id.".to_owned(),
            ),
        }
    }

    /// Replaces the stored target of `id` with the supplied link if the
    /// passphrase matches; unknown id and wrong passphrase yield the same
    /// not-found signal, and then nothing changes.
    pub fn update(&self, db: &mut QrCodeDatabase, id: u128, password: String, link: &str) -> (r:
        QrCodeUpdateResponse)
        ensures
            match r {
                QrCodeUpdateResponse::Updated(txt) => {
                    &&& old(db)@.contains_key(id)
                    &&& old(db)@[id].passphrase == password@
                    &&& final(db)@.contains_key(id)
                    &&& url_parse_of(link@) == Some(final(db)@[id].link)
                    &&& final(db)@[id].modified_at is Some
                    &&& (old(db)@[id].modified_at matches Some(t) ==> (final(db)@[id].modified_at
                        matches Some(m) && m >= t))
                    &&& final(db)@[id] == (LinkModel {
                        link: final(db)@[id].link,
                        modified_at: final(db)@[id].modified_at,
                        ..old(db)@[id]
                    })
                    &&& final(db)@ == old(db)@.insert(id, final(db)@[id])
                    &&& txt@ == uuid_str(id)
                },
                QrCodeUpdateResponse::NotFound(msg) => {
                    &&& url_parse_of(link@) is Some
                    &&& !old(db)@.contains_key(id) || old(db)@[id].passphrase != password@
                    &&& final(db)@ == old(db)@
                    &&& msg@ == "No qr code could be found for this id."@
                },
                QrCodeUpdateResponse::BadRequest(msg) => {
                    &&& url_parse_of(link@) is None
                    &&& final(db)@ == old(db)@
                    &&& msg@ == "The supplied link is not a valid URL."@
                },
            },
    {
        let canonical = match parse_link(link) {
            Some(t) => t,
            None => {
                return QrCodeUpdateResponse::BadRequest(
                    "The supplied link is not a valid URL.".to_owned(),
                );
            },
        };
        let now = now_millis();
        match db.update(id, password, canonical, now) {
            Some(_rec) => QrCodeUpdateResponse::Updated(uuid_text(id)),
            None => QrCodeUpdateResponse::NotFound(
                "No qr code could be found for this id.".to_owned(),
            ),
        }
    }

    /// Removes the record under `id` if the passphrase matches; unknown
    /// id and wrong passphrase yield the same not-found signal, and then
    /// nothing changes.
    pub fn delete(&self, db: &mut QrCodeDatabase, id: u128, password: String) -> (r:
        QrCodeDeleteResponse)
        ensures
            match r {
                QrCodeDeleteResponse::Deleted => {
                    &&& old(db)@.contains_key(id)
                    &&& old(db)@[id].passphrase == password@
                    &&& final(db)@ == old(db)@.remove(id)
                },
                QrCodeDeleteResponse::NotFound(msg) => {
                    &&& !old(db)@.contains_key(id) || old(db)@[id].passphrase != password@
                    &&& final(db)@ == old(db)@
                    &&& msg@ == "No qr code could be found with this id."@
                },
            },
    {
        match db.delete(id, password) {
            Some(_rec) => QrCodeDeleteResponse::Deleted,
            None => QrCodeDeleteResponse::NotFound(
                "No qr code could be found with this id.".to_owned(),
            ),
        }
    }
}

/// The redirect resolver.
pub struct RedirectApi;

impl RedirectApi {
    /// Resolves `id` to its stored target. Every stored link was
    /// validated at creation, so the malformed-target and storage-failure
    /// outcomes are proved unreachable here.
    pub fn redirect(&self, db: &QrCodeDatabase, id: u128) -> (r: RedirectResponse)
        ensures
            match r {
                RedirectResponse::Redirect(loc) => {
                    &&& db@.contains_key(id)
                    &&& loc@ == db@[id].link
                    &&& url_parse_of(db@[id].link) == Some(loc@)
                },
                RedirectResponse::NotFound(msg) => !db@.contains_key(id) && msg@
                    == "The requested qr code id could not be found."@,
                RedirectResponse::InvalidUrl(msg) => false,
                RedirectResponse::DatabaseError(msg) => false,
            },
    {
        let rec = match db.get(id) {
            Some(rec) => rec,
            None => {
                return RedirectResponse::NotFound(
                    "The requested qr code id could not be found.".to_owned(),
                );
            },
        };
        match parse_link(rec.link.as_str()) {
            Some(location) => RedirectResponse::Redirect(location),
            None => RedirectResponse::InvalidUrl("The redirect url is broken.".to_owned()),
        }
    }
}

/// The image endpoint.
pub struct ImageApi;

impl ImageApi {
    /// Renders the symbol for `id` in the requested format and pairs the
    /// bytes with the response variant the transport layer labels with
    /// the matching content type. The not-found response comes exactly
    /// when the id is unknown, and the internal error exactly when the
    /// payload exceeds the maximum symbol capacity.
    pub fn get_image(
        &self,
        generator: &QrCodeGenerator,
        db: &QrCodeDatabase,
        id: u128,
        image_type: QrImageType,
    ) -> (r: ImageResponse)
        ensures
            ({
                let payload = payload_of(generator.server_url@, id);
                match r {
                    ImageResponse::Png(b) => image_type == QrImageType::Png && db@.contains_key(id)
                        && (qr_symbol_of(payload) matches Some(sym) && b@ == png_bytes_of(
                        bitmap_of(sym.1, sym.0 as int),
                        bitmap_total(sym.0 as int) as u32,
                        bitmap_total(sym.0 as int) as u32,
                    )),
                    ImageResponse::Jpg(b) => image_type == QrImageType::Jpg && db@.contains_key(id)
                        && (qr_symbol_of(payload) matches Some(sym) && b@ == jpeg_bytes_of(
                        bitmap_of(sym.1, sym.0 as int),
                        bitmap_total(sym.0 as int) as u32,
                        bitmap_total(sym.0 as int) as u32,
                    )),
                    ImageResponse::Svg(b, disposition) => image_type == QrImageType::Svg
                        && db@.contains_key(id) && (qr_symbol_of(payload) matches Some(sym) && b@
                        == vstd::utf8::encode_utf8(svg_of(sym.1, sym.0 as int))) && disposition@
                        == "inline"@,
                    ImageResponse::NotFound(msg) => !db@.contains_key(id) && msg@
                        == "No qr code could be found for this id."@,
                    ImageResponse::InternalError(msg) => db@.contains_key(id) && qr_symbol_of(
                        payload,
                    ) is None && msg@
                        == "Could not retrieve qr code information, because of an internal error."@,
                }
            }),
            db@.contains_key(id) && qr_symbol_of(payload_of(generator.server_url@, id))
                is Some ==> match image_type {
                QrImageType::Png => r is Png,
                QrImageType::Jpg => r is Jpg,
                QrImageType::Svg => r is Svg,
            },
    {
        match generator.generate(db, id, image_type) {
            GenerateOutcome::Image(data) => match image_type {
                QrImageType::Png => ImageResponse::Png(data),
                QrImageType::Jpg => ImageResponse::Jpg(data),
                QrImageType::Svg => ImageResponse::Svg(data, "inline".to_owned()),
            },
            GenerateOutcome::NotFound => ImageResponse::NotFound(
                "No qr code could be found for this id.".to_owned(),
            ),
            GenerateOutcome::EncodingError => ImageResponse::InternalError(
                "Could not retrieve qr code information, because of an internal error.".to_owned(),
            ),
        }
    }
}

/// The liveness endpoint.
pub struct HealthApi;

impl HealthApi {
    /// The fixed liveness message.
    pub fn health_check(&self) -> (r: String)
        ensures
            r@ == "I am still alive!"@,
    {
        "I am still alive!".to_owned()
    }
}

/// The version endpoint.
pub struct VersionApi;

impl VersionApi {
    /// One line per component: the component's name and version separated
    /// by a colon.
    pub fn version(
        &self,
        api_name: &str,
        api_version: &str,
        service_name: &str,
        service_version: &str,
    ) -> (r: String)
        ensures
            r@ == api_name@ + ": "@ + api_version@ + "\n"@ + service_name@ + ": "@
                + service_version@,
    {
        let mut s = String::new();
        s.append(api_name);
        s.append(": ");
        s.append(api_version);
        s.append("\n");
        s.append(service_name);
        s.append(": ");
        s.append(service_version);
        proof {
            assert(s@ =~= api_name@ + ": "@ + api_version@ + "\n"@ + service_name@ + ": "@
                + service_version@);
        }
        s
    }
}

} // verus!
