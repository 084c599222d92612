//! Where request bodies and files are stored, and how that is configured.
use vstd::prelude::*;

use crate::channel::OrderDirection;
use crate::scalars::{CursorScalar, PageInfo, TimeScalar, ID};
use crate::text::{joined, joined3};

verus! {

/// The `DataStorageOrderField` values.
#[derive(Debug, Clone, Copy, PartialEq, Eq, Structural)]
pub enum DataStorageOrderField {
    CreatedAt,
    UpdatedAt,
}

/// The `DataStorageStatus` values.
#[derive(Debug, Clone, Copy, PartialEq, Eq, Structural)]
pub enum DataStorageStatus {
    Active,
    Archived,
}

/// The `DataStorageType` values.
#[derive(Debug, Clone, Copy, PartialEq, Eq, Structural)]
pub enum DataStorageType {
    Database,
    Fs,
    S3,
    Gcs,
    Webdav,
}

/// The `S3` object.
#[derive(Debug, Clone, PartialEq, Eq)]
pub struct S3 {
    pub bucket_name: String,
    pub endpoint: String,
    pub region: String,
    pub path_style: bool,
}

/// The `GCS` object.
#[derive(Debug, Clone, PartialEq, Eq)]
pub struct GCS {
    pub bucket_name: String,
}

/// The `WebDAV` object.
#[derive(Debug, Clone, PartialEq, Eq)]
pub struct WebDAV {
    pub url: String,
    pub username: Option<String>,
    pub password: Option<String>,
    pub insecure_skip_tls: Option<bool>,
    pub path: Option<String>,
}

/// The `DataStorageSettings` object.
#[derive(Debug, Clone, PartialEq, Eq)]
pub struct DataStorageSettings {
    pub dsn: Option<String>,
    pub directory: Option<String>,
    pub s3: Option<S3>,
    pub gcs: Option<GCS>,
    pub webdav: Option<WebDAV>,
}

/// The `DataStorage` object.
#[derive(Debug, Clone, PartialEq)]
pub struct DataStorage {
    pub id: ID,
    pub created_at: TimeScalar,
    pub updated_at: TimeScalar,
    pub name: String,
    pub description: String,
    pub primary: bool,
    pub storage_type: DataStorageType,
    pub settings: DataStorageSettings,
    pub status: DataStorageStatus,
}

/// The `DataStorageEdge` object.
#[derive(Debug, Clone, PartialEq)]
pub struct DataStorageEdge {
    pub node: Option<DataStorage>,
    pub cursor: CursorScalar,
}

/// The `DataStorageConnection` object.
#[derive(Debug, Clone, PartialEq)]
pub struct DataStorageConnection {
    pub edges: Option<Vec<Option<DataStorageEdge>>>,
    pub page_info: PageInfo,
    pub total_count: i64,
}

/// The `S3Input` input.
#[derive(Debug, Clone, PartialEq, Eq)]
pub struct S3Input {
    pub bucket_name: String,
    pub endpoint: Option<String>,
    pub region: Option<String>,
    pub access_key: Option<String>,
    pub secret_key: Option<String>,
    pub path_style: Option<bool>,
}

/// The `GCSInput` input.
#[derive(Debug, Clone, PartialEq, Eq)]
pub struct GCSInput {
    pub bucket_name: String,
    pub credential: Option<String>,
}

/// The `WebDAVInput` input.
#[derive(Debug, Clone, PartialEq, Eq)]
pub struct WebDAVInput {
    pub url: String,
    pub username: Option<String>,
    pub password: Option<String>,
    pub insecure_skip_tls: Option<bool>,
    pub path: Option<String>,
}

/// The `DataStorageSettingsInput` input.
#[derive(Debug, Clone, PartialEq, Eq)]
pub struct DataStorageSettingsInput {
    pub dsn: Option<String>,
    pub directory: Option<String>,
    pub s3: Option<S3Input>,
    pub gcs: Option<GCSInput>,
    pub webdav: Option<WebDAVInput>,
}

/// The `DataStorageOrder` input.
#[derive(Debug, Clone, Copy, PartialEq, Eq)]
pub struct DataStorageOrder {
    pub direction: OrderDirection,
    pub field: DataStorageOrderField,
}

/// The `CreateDataStorageInput` input.
#[derive(Debug, Clone, PartialEq, Eq)]
pub struct CreateDataStorageInput {
    pub name: String,
    pub description: String,
    pub storage_type: DataStorageType,
    pub settings: DataStorageSettingsInput,
    pub status: Option<DataStorageStatus>,
}

/// The `UpdateDataStorageInput` input.
#[derive(Debug, Clone, PartialEq, Eq)]
pub struct UpdateDataStorageInput {
    pub name: Option<String>,
    pub description: Option<String>,
    pub settings: Option<DataStorageSettingsInput>,
    pub status: Option<DataStorageStatus>,
}

/// The `DataStorageWhereInput` input.
#[derive(Debug, Default, PartialEq, Eq)]
pub struct DataStorageWhereInput {
    pub not: Option<Box<DataStorageWhereInput>>,
    pub and: Option<Vec<DataStorageWhereInput>>,
    pub or: Option<Vec<DataStorageWhereInput>>,
    pub id: Option<ID>,
    pub id_neq: Option<ID>,
    pub id_in: Option<Vec<ID>>,
    pub id_not_in: Option<Vec<ID>>,
    pub id_gt: Option<ID>,
    pub id_gte: Option<ID>,
    pub id_lt: Option<ID>,
    pub id_lte: Option<ID>,
    pub created_at: Option<TimeScalar>,
    pub created_at_neq: Option<TimeScalar>,
    pub created_at_in: Option<Vec<TimeScalar>>,
    pub created_at_not_in: Option<Vec<TimeScalar>>,
    pub created_at_gt: Option<TimeScalar>,
    pub created_at_gte: Option<TimeScalar>,
    pub created_at_lt: Option<TimeScalar>,
    pub created_at_lte: Option<TimeScalar>,
    pub updated_at: Option<TimeScalar>,
    pub updated_at_neq: Option<TimeScalar>,
    pub updated_at_in: Option<Vec<TimeScalar>>,
    pub updated_at_not_in: Option<Vec<TimeScalar>>,
    pub updated_at_gt: Option<TimeScalar>,
    pub updated_at_gte: Option<TimeScalar>,
    pub updated_at_lt: Option<TimeScalar>,
    pub updated_at_lte: Option<TimeScalar>,
    pub name: Option<String>,
    pub name_neq: Option<String>,
    pub name_in: Option<Vec<String>>,
    pub name_not_in: Option<Vec<String>>,
    pub name_gt: Option<String>,
    pub name_gte: Option<String>,
    pub name_lt: Option<String>,
    pub name_lte: Option<String>,
    pub name_contains: Option<String>,
    pub name_has_prefix: Option<String>,
    pub name_has_suffix: Option<String>,
    pub name_equal_fold: Option<String>,
    pub name_contains_fold: Option<String>,
    pub description: Option<String>,
    pub description_neq: Option<String>,
    pub description_in: Option<Vec<String>>,
    pub description_not_in: Option<Vec<String>>,
    pub description_gt: Option<String>,
    pub description_gte: Option<String>,
    pub description_lt: Option<String>,
    pub description_lte: Option<String>,
    pub description_contains: Option<String>,
    pub description_has_prefix: Option<String>,
    pub description_has_suffix: Option<String>,
    pub description_equal_fold: Option<String>,
    pub description_contains_fold: Option<String>,
    pub primary: Option<bool>,
    pub primary_neq: Option<bool>,
    pub storage_type: Option<DataStorageType>,
    pub type_neq: Option<DataStorageType>,
    pub type_in: Option<Vec<DataStorageType>>,
    pub type_not_in: Option<Vec<DataStorageType>>,
    pub status: Option<DataStorageStatus>,
    pub status_neq: Option<DataStorageStatus>,
    pub status_in: Option<Vec<DataStorageStatus>>,
    pub status_not_in: Option<Vec<DataStorageStatus>>,
}

/// What a listing is ordered by.
#[derive(Debug, Clone, Copy, PartialEq, Eq, Structural)]
pub enum DataStorageOrderTerm {
    Id,
    UpdatedAt,
}

/// An ordering, as the service takes it.
#[derive(Debug, Clone, Copy, PartialEq, Eq)]
pub struct DataStorageOrderSelection {
    pub direction: OrderDirection,
    pub term: DataStorageOrderTerm,
}

/// How a request can fail.
#[derive(Debug, Clone)]
pub enum DataStorageServiceError {
    ServiceUnavailable,
    DuplicateName(String),
    NotFound,
    Create(String),
    Update(String),
    Query(String),
}

/// The arguments of a listing, as the service takes them.
#[derive(Debug, Default)]
pub struct DataStorageConnectionArgs {
    pub after: Option<String>,
    pub first: Option<i32>,
    pub before: Option<String>,
    pub last: Option<i32>,
    pub order_by: Option<DataStorageOrderSelection>,
    pub where_filter: Option<DataStorageWhereInput>,
}

// ---------------------------------------------------------------------------
// Ordering
// ---------------------------------------------------------------------------

/// The service term for a caller's order field: the creation time is ordered by
/// primary key.
pub open spec fn data_storage_order_term(field: DataStorageOrderField) -> DataStorageOrderTerm {
    match field {
        DataStorageOrderField::CreatedAt => DataStorageOrderTerm::Id,
        DataStorageOrderField::UpdatedAt => DataStorageOrderTerm::UpdatedAt,
    }
}

/// Lowers a caller's ordering into the one the service takes. The direction
/// stands.
pub fn resolve_data_storage_order(order_by: Option<DataStorageOrder>) -> (selection: Option<
    DataStorageOrderSelection,
>)
    ensures
        selection is Some <==> order_by is Some,
        order_by matches Some(order) ==> selection == Some(
            (DataStorageOrderSelection {
                direction: order.direction,
                term: data_storage_order_term(order.field),
            }),
        ),
{
    match order_by {
        Some(order) => {
            let term = match order.field {
                DataStorageOrderField::CreatedAt => DataStorageOrderTerm::Id,
                DataStorageOrderField::UpdatedAt => DataStorageOrderTerm::UpdatedAt,
            };
            Some(DataStorageOrderSelection { direction: order.direction, term })
        },
        None => None,
    }
}

// ---------------------------------------------------------------------------
// Settings
// ---------------------------------------------------------------------------

/// A text that a change gives, or else the one that is stored.
pub open spec fn given_or_kept<T>(given: Option<T>, kept: Option<T>) -> Option<T> {
    if given is Some {
        given
    } else {
        kept
    }
}

/// A name that a change gives, unless it is empty.
pub open spec fn named_or_kept(given: String, kept: String) -> String {
    if given@.len() == 0 {
        kept
    } else {
        given
    }
}

/// Whether `merged` is the S3 storage `existing` after the change `input`.
pub open spec fn merges_s3(merged: S3, existing: Option<S3>, input: S3Input) -> bool {
    match existing {
        Some(kept) => {
            &&& merged.bucket_name == named_or_kept(input.bucket_name, kept.bucket_name)
            &&& Some(merged.endpoint) == given_or_kept(input.endpoint, Some(kept.endpoint))
            &&& Some(merged.region) == given_or_kept(input.region, Some(kept.region))
            &&& Some(merged.path_style) == given_or_kept(input.path_style, Some(kept.path_style))
        },
        None => {
            &&& merged.bucket_name == input.bucket_name
            &&& merged.endpoint@ == text_or_empty(input.endpoint)
            &&& merged.region@ == text_or_empty(input.region)
            &&& merged.path_style == (input.path_style == Some(true))
        },
    }
}

/// The characters of an optional text, none where it is absent.
pub open spec fn text_or_empty(text: Option<String>) -> Seq<char> {
    match text {
        Some(given) => given@,
        None => Seq::empty(),
    }
}

/// Whether `merged` is the GCS storage `existing` after the change `input`.
pub open spec fn merges_gcs(merged: GCS, existing: Option<GCS>, input: GCSInput) -> bool {
    match existing {
        Some(kept) => merged.bucket_name == named_or_kept(input.bucket_name, kept.bucket_name),
        None => merged.bucket_name == input.bucket_name,
    }
}

/// Whether `merged` is the WebDAV storage `existing` after the change `input`.
pub open spec fn merges_webdav(merged: WebDAV, existing: Option<WebDAV>, input: WebDAVInput) -> bool {
    match existing {
        Some(kept) => {
            &&& merged.url == named_or_kept(input.url, kept.url)
            &&& merged.username == given_or_kept(input.username, kept.username)
            &&& merged.password == given_or_kept(input.password, kept.password)
            &&& merged.insecure_skip_tls == given_or_kept(
                input.insecure_skip_tls,
                kept.insecure_skip_tls,
            )
            &&& merged.path == given_or_kept(input.path, kept.path)
        },
        None => {
            &&& merged.url == input.url
            &&& merged.username == input.username
            &&& merged.password == input.password
            &&& merged.insecure_skip_tls == input.insecure_skip_tls
            &&& merged.path == input.path
        },
    }
}

/// Whether `merged` are the settings `existing` after the change `input`: what the
/// change gives is taken, everything else is kept.
pub open spec fn merges_settings(
    merged: DataStorageSettings,
    existing: DataStorageSettings,
    input: DataStorageSettingsInput,
) -> bool {
    &&& merged.dsn == given_or_kept(input.dsn, existing.dsn)
    &&& merged.directory == given_or_kept(input.directory, existing.directory)
    &&& match input.s3 {
        Some(change) => merged.s3 matches Some(s3) && merges_s3(s3, existing.s3, change),
        None => merged.s3 == existing.s3,
    }
    &&& match input.gcs {
        Some(change) => merged.gcs matches Some(gcs) && merges_gcs(gcs, existing.gcs, change),
        None => merged.gcs == existing.gcs,
    }
    &&& match input.webdav {
        Some(change) => merged.webdav matches Some(webdav) && merges_webdav(
            webdav,
            existing.webdav,
            change,
        ),
        None => merged.webdav == existing.webdav,
    }
}

fn text_copy(text: &Option<String>) -> (copy: Option<String>)
    ensures
        copy == *text,
{
    match text {
        Some(t) => Some(t.clone()),
        None => None,
    }
}

fn text_given_or_kept(given: &Option<String>, kept: &Option<String>) -> (text: Option<String>)
    ensures
        text == given_or_kept(*given, *kept),
{
    match given {
        Some(t) => Some(t.clone()),
        None => text_copy(kept),
    }
}

fn text_named_or_kept(given: &String, kept: &String) -> (text: String)
    ensures
        text == named_or_kept(*given, *kept),
{
    if given.as_str().is_empty() {
        kept.clone()
    } else {
        given.clone()
    }
}

/// A stored S3 storage after a change.
pub fn merge_s3(existing: &S3, input: &S3Input) -> (merged: S3)
    ensures
        merges_s3(merged, Some(*existing), *input),
{
    S3 {
        bucket_name: text_named_or_kept(&input.bucket_name, &existing.bucket_name),
        endpoint: match &input.endpoint {
            Some(endpoint) => endpoint.clone(),
            None => existing.endpoint.clone(),
        },
        region: match &input.region {
            Some(region) => region.clone(),
            None => existing.region.clone(),
        },
        path_style: match input.path_style {
            Some(path_style) => path_style,
            None => existing.path_style,
        },
    }
}

/// A stored GCS storage after a change. The credential of a change is not part of
/// the settings that are shown.
pub fn merge_gcs(existing: &GCS, input: &GCSInput) -> (merged: GCS)
    ensures
        merges_gcs(merged, Some(*existing), *input),
{
    GCS { bucket_name: text_named_or_kept(&input.bucket_name, &existing.bucket_name) }
}

/// A stored WebDAV storage after a change.
pub fn merge_webdav(existing: &WebDAV, input: &WebDAVInput) -> (merged: WebDAV)
    ensures
        merges_webdav(merged, Some(*existing), *input),
{
    WebDAV {
        url: text_named_or_kept(&input.url, &existing.url),
        username: text_given_or_kept(&input.username, &existing.username),
        password: text_given_or_kept(&input.password, &existing.password),
        insecure_skip_tls: match input.insecure_skip_tls {
            Some(given) => Some(given),
            None => existing.insecure_skip_tls,
        },
        path: text_given_or_kept(&input.path, &existing.path),
    }
}

/// A new S3 storage: what is not given is empty or off.
pub fn map_s3_from_input(input: &S3Input) -> (s3: S3)
    ensures
        merges_s3(s3, None, *input),
{
    S3 {
        bucket_name: input.bucket_name.clone(),
        endpoint: match &input.endpoint {
            Some(endpoint) => endpoint.clone(),
            None => String::new(),
        },
        region: match &input.region {
            Some(region) => region.clone(),
            None => String::new(),
        },
        path_style: match input.path_style {
            Some(path_style) => path_style,
            None => false,
        },
    }
}

/// A new WebDAV storage.
pub fn map_webdav_from_input(input: &WebDAVInput) -> (webdav: WebDAV)
    ensures
        merges_webdav(webdav, None, *input),
{
    WebDAV {
        url: input.url.clone(),
        username: text_copy(&input.username),
        password: text_copy(&input.password),
        insecure_skip_tls: input.insecure_skip_tls,
        path: text_copy(&input.path),
    }
}

/// New settings from what was given.
pub fn map_settings_from_input(input: &DataStorageSettingsInput) -> (settings: DataStorageSettings)
    ensures
        merges_settings(
            settings,
            (DataStorageSettings {
                dsn: None,
                directory: None,
                s3: None,
                gcs: None,
                webdav: None,
            }),
            *input,
        ),
{
    merge_settings(
        &DataStorageSettings { dsn: None, directory: None, s3: None, gcs: None, webdav: None },
        input,
    )
}

/// Stored settings after a change: what the change gives is taken, everything else
/// is kept, passwords included.
pub fn merge_settings(existing: &DataStorageSettings, input: &DataStorageSettingsInput) -> (merged:
    DataStorageSettings)
    ensures
        merges_settings(merged, *existing, *input),
{
    DataStorageSettings {
        dsn: text_given_or_kept(&input.dsn, &existing.dsn),
        directory: text_given_or_kept(&input.directory, &existing.directory),
        s3: match (&existing.s3, &input.s3) {
            (Some(kept), Some(change)) => Some(merge_s3(kept, change)),
            (None, Some(change)) => Some(map_s3_from_input(change)),
            (Some(kept), None) => Some(
                S3 {
                    bucket_name: kept.bucket_name.clone(),
                    endpoint: kept.endpoint.clone(),
                    region: kept.region.clone(),
                    path_style: kept.path_style,
                },
            ),
            (None, None) => None,
        },
        gcs: match (&existing.gcs, &input.gcs) {
            (Some(kept), Some(change)) => Some(merge_gcs(kept, change)),
            (None, Some(change)) => Some(GCS { bucket_name: change.bucket_name.clone() }),
            (Some(kept), None) => Some(GCS { bucket_name: kept.bucket_name.clone() }),
            (None, None) => None,
        },
        webdav: match (&existing.webdav, &input.webdav) {
            (Some(kept), Some(change)) => Some(merge_webdav(kept, change)),
            (None, Some(change)) => Some(map_webdav_from_input(change)),
            (Some(kept), None) => Some(
                WebDAV {
                    url: kept.url.clone(),
                    username: text_copy(&kept.username),
                    password: text_copy(&kept.password),
                    insecure_skip_tls: kept.insecure_skip_tls,
                    path: text_copy(&kept.path),
                },
            ),
            (None, None) => None,
        },
    }
}

/// Whether two settings read the same.
pub open spec fn same_settings(a: DataStorageSettings, b: DataStorageSettings) -> bool {
    &&& a.dsn == b.dsn
    &&& a.directory == b.directory
    &&& match (a.s3, b.s3) {
        (Some(x), Some(y)) => {
            &&& x.bucket_name@ == y.bucket_name@
            &&& x.endpoint@ == y.endpoint@
            &&& x.region@ == y.region@
            &&& x.path_style == y.path_style
        },
        (x, y) => x is None && y is None,
    }
    &&& match (a.gcs, b.gcs) {
        (Some(x), Some(y)) => x.bucket_name@ == y.bucket_name@,
        (x, y) => x is None && y is None,
    }
    &&& match (a.webdav, b.webdav) {
        (Some(x), Some(y)) => {
            &&& x.url@ == y.url@
            &&& x.username == y.username
            &&& x.password == y.password
            &&& x.insecure_skip_tls == y.insecure_skip_tls
            &&& x.path == y.path
        },
        (x, y) => x is None && y is None,
    }
}

impl DataStorageServiceError {
    /// What the error reads like.
    pub open spec fn text(&self) -> Seq<char> {
        match self {
            DataStorageServiceError::ServiceUnavailable => "data storage service is not available"@,
            DataStorageServiceError::DuplicateName(detail) => "data storage name '"@
                + detail@
                + "' already exists"@,
            DataStorageServiceError::NotFound => "ent: datastorage not found"@,
            DataStorageServiceError::Create(detail) => "failed to create data storage: "@ + detail@,
            DataStorageServiceError::Update(detail) => "failed to update data storage: "@ + detail@,
            DataStorageServiceError::Query(detail) => "failed to query data storages: "@ + detail@,
        }
    }

    /// What the error reads like.
    pub fn message(&self) -> (message: String)
        ensures
            message@ == self.text(),
    {
        match self {
            DataStorageServiceError::ServiceUnavailable =>
                "data storage service is not available".to_owned(),
            DataStorageServiceError::DuplicateName(detail) => joined3(
                "data storage name '",
                detail.as_str(),
                "' already exists",
            ),
            DataStorageServiceError::NotFound => "ent: datastorage not found".to_owned(),
            DataStorageServiceError::Create(detail) => joined(
                "failed to create data storage: ",
                detail.as_str(),
            ),
            DataStorageServiceError::Update(detail) => joined(
                "failed to update data storage: ",
                detail.as_str(),
            ),
            DataStorageServiceError::Query(detail) => joined(
                "failed to query data storages: ",
                detail.as_str(),
            ),
        }
    }
}

// ---------------------------------------------------------------------------
// Laws
// ---------------------------------------------------------------------------

/// Different order fields stay different orderings: lowering loses no choice.
pub proof fn data_storage_order_terms_are_distinct(
    a: DataStorageOrderField,
    b: DataStorageOrderField,
)
    requires
        a != b,
    ensures
        data_storage_order_term(a) != data_storage_order_term(b),
{
}

/// A change that gives nothing leaves the settings as they are.
pub proof fn empty_changes_keep_settings(
    merged: DataStorageSettings,
    existing: DataStorageSettings,
    input: DataStorageSettingsInput,
)
    requires
        merges_settings(merged, existing, input),
        input.dsn is None,
        input.directory is None,
        input.s3 is None,
        input.gcs is None,
        input.webdav is None,
    ensures
        merged == existing,
{
}

/// A password that is not given stays the one that is stored.
pub proof fn stored_passwords_stay(
    merged: DataStorageSettings,
    existing: DataStorageSettings,
    input: DataStorageSettingsInput,
)
    requires
        merges_settings(merged, existing, input),
        existing.webdav is Some,
        input.webdav matches Some(change) ==> change.password is None,
    ensures
        merged.webdav is Some,
        merged.webdav->0.password == existing.webdav->0.password,
{
}

/// No kind of storage is lost in a change, and none is added that was not given.
pub proof fn changes_keep_every_storage(
    merged: DataStorageSettings,
    existing: DataStorageSettings,
    input: DataStorageSettingsInput,
)
    requires
        merges_settings(merged, existing, input),
    ensures
        merged.s3 is Some <==> existing.s3 is Some || input.s3 is Some,
        merged.gcs is Some <==> existing.gcs is Some || input.gcs is Some,
        merged.webdav is Some <==> existing.webdav is Some || input.webdav is Some,
{
}

/// Making the same change once more changes nothing.
pub proof fn changes_settle(
    once: DataStorageSettings,
    twice: DataStorageSettings,
    existing: DataStorageSettings,
    input: DataStorageSettingsInput,
)
    requires
        merges_settings(once, existing, input),
        merges_settings(twice, once, input),
    ensures
        same_settings(twice, once),
{
}

/// Whatever a change of a stored WebDAV storage gives is taken, and whatever it leaves
/// out stays: this holds of the user, the password, the TLS flag and the path. The
/// address is taken unless it is empty.
pub proof fn webdav_changes_take_what_is_given(merged: WebDAV, kept: WebDAV, input: WebDAVInput)
    requires
        merges_webdav(merged, Some(kept), input),
    ensures
        input.url@.len() > 0 ==> merged.url@ == input.url@,
        input.url@.len() == 0 ==> merged.url@ == kept.url@,
        input.username is Some ==> merged.username == input.username,
        input.username is None ==> merged.username == kept.username,
        input.password is Some ==> merged.password == input.password,
        input.password is None ==> merged.password == kept.password,
        input.insecure_skip_tls is Some ==> merged.insecure_skip_tls == input.insecure_skip_tls,
        input.insecure_skip_tls is None ==> merged.insecure_skip_tls == kept.insecure_skip_tls,
        input.path is Some ==> merged.path == input.path,
        input.path is None ==> merged.path == kept.path,
{
}

/// The same of a stored S3 storage: its endpoint, region and path style are taken where
/// they are given and stay where they are not, and its bucket is taken unless the name
/// is empty.
pub proof fn s3_changes_take_what_is_given(merged: S3, kept: S3, input: S3Input)
    requires
        merges_s3(merged, Some(kept), input),
    ensures
        input.bucket_name@.len() > 0 ==> merged.bucket_name@ == input.bucket_name@,
        input.bucket_name@.len() == 0 ==> merged.bucket_name@ == kept.bucket_name@,
        input.endpoint matches Some(given) ==> merged.endpoint == given,
        input.endpoint is None ==> merged.endpoint == kept.endpoint,
        input.region matches Some(given) ==> merged.region == given,
        input.region is None ==> merged.region == kept.region,
        input.path_style matches Some(given) ==> merged.path_style == given,
        input.path_style is None ==> merged.path_style == kept.path_style,
{
}

/// The same of a stored GCS storage: its bucket is taken unless the name is empty.
pub proof fn gcs_changes_take_what_is_given(merged: GCS, kept: GCS, input: GCSInput)
    requires
        merges_gcs(merged, Some(kept), input),
    ensures
        input.bucket_name@.len() > 0 ==> merged.bucket_name@ == input.bucket_name@,
        input.bucket_name@.len() == 0 ==> merged.bucket_name@ == kept.bucket_name@,
{
}

/// A new storage is what was given; where an S3 storage leaves something out, it is
/// empty or off.
pub proof fn new_storages_are_as_given(
    s3: S3,
    bucket: S3Input,
    webdav: WebDAV,
    share: WebDAVInput,
    gcs: GCS,
    cloud: GCSInput,
)
    requires
        merges_s3(s3, None, bucket),
        merges_webdav(webdav, None, share),
        merges_gcs(gcs, None, cloud),
    ensures
        s3.bucket_name@ == bucket.bucket_name@,
        bucket.endpoint matches Some(given) ==> s3.endpoint@ == given@,
        bucket.endpoint is None ==> s3.endpoint@.len() == 0,
        bucket.region matches Some(given) ==> s3.region@ == given@,
        bucket.region is None ==> s3.region@.len() == 0,
        bucket.path_style matches Some(given) ==> s3.path_style == given,
        bucket.path_style is None ==> !s3.path_style,
        webdav.url@ == share.url@,
        webdav.username == share.username,
        webdav.password == share.password,
        webdav.insecure_skip_tls == share.insecure_skip_tls,
        webdav.path == share.path,
        gcs.bucket_name@ == cloud.bucket_name@,
{
}

/// A change of settings takes what it gives, part by part, and leaves the parts that it
/// does not give as they are.
pub proof fn changes_take_what_is_given(
    merged: DataStorageSettings,
    existing: DataStorageSettings,
    input: DataStorageSettingsInput,
)
    requires
        merges_settings(merged, existing, input),
    ensures
        input.dsn is Some ==> merged.dsn == input.dsn,
        input.dsn is None ==> merged.dsn == existing.dsn,
        input.directory is Some ==> merged.directory == input.directory,
        input.directory is None ==> merged.directory == existing.directory,
        input.s3 is None ==> merged.s3 == existing.s3,
        input.s3 matches Some(change) ==> merged.s3 is Some && merges_s3(
            merged.s3->0,
            existing.s3,
            change,
        ),
        input.gcs is None ==> merged.gcs == existing.gcs,
        input.gcs matches Some(change) ==> merged.gcs is Some && merges_gcs(
            merged.gcs->0,
            existing.gcs,
            change,
        ),
        input.webdav is None ==> merged.webdav == existing.webdav,
        input.webdav matches Some(change) ==> merged.webdav is Some && merges_webdav(
            merged.webdav->0,
            existing.webdav,
            change,
        ),
{
}

/// Of two changes made one after the other, the password of the later one counts where
/// it gives one, else that of the earlier one, else the stored one.
pub proof fn the_last_password_given_counts(
    stored: WebDAV,
    first: WebDAVInput,
    middle: WebDAV,
    second: WebDAVInput,
    last: WebDAV,
)
    requires
        merges_webdav(middle, Some(stored), first),
        merges_webdav(last, Some(middle), second),
    ensures
        second.password is Some ==> last.password == second.password,
        second.password is None && first.password is Some ==> last.password == first.password,
        second.password is None && first.password is None ==> last.password == stored.password,
{
}

/// An ordering keeps its direction. Creation time is ordered by primary key and update
/// time by itself.
pub proof fn data_storage_orders_are_lowered(field: DataStorageOrderField)
    ensures
        field == DataStorageOrderField::CreatedAt <==> data_storage_order_term(field)
            == DataStorageOrderTerm::Id,
        field == DataStorageOrderField::UpdatedAt <==> data_storage_order_term(field)
            == DataStorageOrderTerm::UpdatedAt,
{
}

/// What each `DataStorageServiceError` reads like.
pub proof fn data_storage_service_errors_read_like_this(error: DataStorageServiceError)
    ensures
        error is ServiceUnavailable ==> error.text() == "data storage service is not available"@,
        error matches DataStorageServiceError::DuplicateName(detail) ==> error.text() == "data storage name '"@ + detail@ + "' already exists"@,
        error is NotFound ==> error.text() == "ent: datastorage not found"@,
        error matches DataStorageServiceError::Create(detail) ==> error.text() == "failed to create data storage: "@ + detail@,
        error matches DataStorageServiceError::Update(detail) ==> error.text() == "failed to update data storage: "@ + detail@,
        error matches DataStorageServiceError::Query(detail) ==> error.text() == "failed to query data storages: "@ + detail@,
{
}

} // verus!
