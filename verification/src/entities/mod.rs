//! Attributes shared by every catalog entity and by every list request.

pub mod price;
pub mod product;

use crate::decode::{
    optional_object, optional_tag, optional_text, present, read_optional_object, read_optional_text,
    read_optional_value, read_required_bool, read_required_text, read_required_u32,
    required_bool, required_text, required_u32, shape,
};
use crate::encode::{put, put_text, text_json, with_member};
use crate::error::DecodeError;
use crate::json::{json_model, opt_json_model, opt_json_ref_model, Json};
use crate::query::{push_pair, with_pair, QueryPair, EMBED};
use crate::text::{decimal, i32_to_string, join, joined, str_eq};
use vstd::prelude::*;
use vstd::string::*;

verus! {

/// Whether an entity can be used.
#[derive(Clone, Copy, Debug, PartialEq, Eq, Structural)]
pub enum EntityStatus {
    /// Entity is active and can be used.
    Active,
    /// Entity is archived, so can't be used.
    Archived,
}

/// Whether an item belongs to the catalog.
#[derive(Clone, Copy, Debug, PartialEq, Eq, Structural)]
pub enum EntityType {
    /// Non-catalog item, typically created for one transaction or
    /// subscription. Not returned when listing.
    Custom,
    /// Standard item, part of the catalog and reusable.
    Standard,
}

impl EntityStatus {
    /// The tag that stands for the status on the wire.
    pub open spec fn wire_tag(self) -> Seq<char> {
        match self {
            EntityStatus::Active => "active"@,
            EntityStatus::Archived => "archived"@,
        }
    }

    /// The status that a wire tag stands for, if it stands for one.
    pub open spec fn from_tag(tag: Seq<char>) -> Option<EntityStatus> {
        if tag == "active"@ {
            Some(EntityStatus::Active)
        } else if tag == "archived"@ {
            Some(EntityStatus::Archived)
        } else {
            None
        }
    }

    /// The wire tag of the status.
    pub fn as_str(&self) -> (r: &'static str)
        ensures
            r@ == self.wire_tag(),
    {
        match self {
            EntityStatus::Active => "active",
            EntityStatus::Archived => "archived",
        }
    }

    /// The wire tag of the status, as an owned string.
    pub fn to_string(&self) -> (r: String)
        ensures
            r@ == self.wire_tag(),
    {
        String::from_str(self.as_str())
    }

    /// Reads a wire tag. Unknown tags are reported, never guessed.
    pub fn from_str(s: &str) -> (r: Result<EntityStatus, String>)
        ensures
            match r {
                Ok(status) => EntityStatus::from_tag(s@) == Some(status),
                Err(message) => EntityStatus::from_tag(s@) is None && message@
                    == "Unknown entity status"@,
            },
    {
        if str_eq(s, "active") {
            Ok(EntityStatus::Active)
        } else if str_eq(s, "archived") {
            Ok(EntityStatus::Archived)
        } else {
            Err(String::from_str("Unknown entity status"))
        }
    }

    /// Every status is read back from its own wire tag, and a tag that is
    /// read as a status is the wire tag of that status.
    pub proof fn lemma_wire_tag_round_trip(status: EntityStatus, tag: Seq<char>)
        ensures
            EntityStatus::from_tag(status.wire_tag()) == Some(status),
            EntityStatus::from_tag(tag) matches Some(read) ==> read.wire_tag() == tag,
    {
        reveal_strlit("active");
        reveal_strlit("archived");
        assert("active"@.len() != "archived"@.len());
    }
}

impl Default for EntityStatus {
    fn default() -> (r: EntityStatus)
        ensures
            r == EntityStatus::Active,
    {
        EntityStatus::Active
    }
}

impl EntityType {
    /// The tag that stands for the type on the wire.
    pub open spec fn wire_tag(self) -> Seq<char> {
        match self {
            EntityType::Custom => "custom"@,
            EntityType::Standard => "standard"@,
        }
    }

    /// The type that a wire tag stands for, if it stands for one.
    pub open spec fn from_tag(tag: Seq<char>) -> Option<EntityType> {
        if tag == "custom"@ {
            Some(EntityType::Custom)
        } else if tag == "standard"@ {
            Some(EntityType::Standard)
        } else {
            None
        }
    }

    /// The wire tag of the type.
    pub fn as_str(&self) -> (r: &'static str)
        ensures
            r@ == self.wire_tag(),
    {
        match self {
            EntityType::Custom => "custom",
            EntityType::Standard => "standard",
        }
    }

    /// The wire tag of the type, as an owned string.
    pub fn to_string(&self) -> (r: String)
        ensures
            r@ == self.wire_tag(),
    {
        String::from_str(self.as_str())
    }

    /// Reads a wire tag. Unknown tags are reported, never guessed.
    pub fn from_str(s: &str) -> (r: Result<EntityType, String>)
        ensures
            match r {
                Ok(kind) => EntityType::from_tag(s@) == Some(kind),
                Err(message) => EntityType::from_tag(s@) is None && message@
                    == "Unknown entity type"@,
            },
    {
        if str_eq(s, "custom") {
            Ok(EntityType::Custom)
        } else if str_eq(s, "standard") {
            Ok(EntityType::Standard)
        } else {
            Err(String::from_str("Unknown entity type"))
        }
    }

    /// Every type is read back from its own wire tag, and a tag that is read
    /// as a type is the wire tag of that type.
    pub proof fn lemma_wire_tag_round_trip(kind: EntityType, tag: Seq<char>)
        ensures
            EntityType::from_tag(kind.wire_tag()) == Some(kind),
            EntityType::from_tag(tag) matches Some(read) ==> read.wire_tag() == tag,
    {
        reveal_strlit("custom");
        reveal_strlit("standard");
        assert("custom"@.len() != "standard"@.len());
    }
}

impl Default for EntityType {
    fn default() -> (r: EntityType)
        ensures
            r == EntityType::Standard,
    {
        EntityType::Standard
    }
}

/// The wire tags of a sequence of statuses, in the same order.
pub open spec fn status_tags(statuses: Seq<EntityStatus>) -> Seq<Seq<char>> {
    Seq::new(statuses.len(), |i: int| statuses[i].wire_tag())
}

/// What an optional reference points to.
pub open spec fn opt_deref<T>(value: Option<&T>) -> Option<T> {
    match value {
        Some(v) => Some(*v),
        None => None,
    }
}

/// Borrows the text of an optional string.
pub fn opt_str(value: &Option<String>) -> (r: Option<&str>)
    ensures
        r.deep_view() == value.deep_view(),
{
    match value {
        Some(text) => Some(text.as_str()),
        None => None,
    }
}

/// Where a list response stands in the whole list.
#[derive(Clone, Debug, PartialEq, Eq)]
pub struct Pagination {
    /// How many entities a page holds.
    pub per_page: u32,
    /// Address of the next page.
    pub next: String,
    /// Whether entities follow after this page.
    pub has_more: bool,
    /// Roughly how many entities the whole list holds.
    pub estimated_total: u32,
}

/// What a [`Pagination`] holds.
pub ghost struct PaginationView {
    pub per_page: u32,
    pub next: Seq<char>,
    pub has_more: bool,
    pub estimated_total: u32,
}

impl View for Pagination {
    type V = PaginationView;

    open spec fn view(&self) -> PaginationView {
        PaginationView {
            per_page: self.per_page,
            next: self.next@,
            has_more: self.has_more,
            estimated_total: self.estimated_total,
        }
    }
}

impl DeepView for Pagination {
    type V = PaginationView;

    open spec fn deep_view(&self) -> PaginationView {
        self@
    }
}

impl PaginationView {
    /// What a pagination object holds. All four members are required.
    pub open spec fn decode(doc: Json) -> Result<PaginationView, Seq<char>> {
        let per_page = required_u32(doc, "per_page"@);
        let next = required_text(doc, "next"@);
        let has_more = required_bool(doc, "has_more"@);
        let estimated_total = required_u32(doc, "estimated_total"@);
        if per_page is Err {
            Err(per_page->Err_0)
        } else if next is Err {
            Err(next->Err_0)
        } else if has_more is Err {
            Err(has_more->Err_0)
        } else if estimated_total is Err {
            Err(estimated_total->Err_0)
        } else {
            Ok(
                PaginationView {
                    per_page: per_page->Ok_0,
                    next: next->Ok_0,
                    has_more: has_more->Ok_0,
                    estimated_total: estimated_total->Ok_0,
                },
            )
        }
    }
}

impl Pagination {
    /// Reads a pagination object.
    pub fn from_json(doc: &serde_json::Value) -> (r: Result<Pagination, DecodeError>)
        ensures
            match r {
                Ok(pagination) => PaginationView::decode(json_model(*doc)) == Ok::<
                    PaginationView,
                    Seq<char>,
                >(pagination@),
                Err(e) => PaginationView::decode(json_model(*doc)) matches Err(name) && e.is_shape(
                    name,
                ),
            },
    {
        let per_page = read_required_u32(doc, "per_page")?;
        let next = read_required_text(doc, "next")?;
        let has_more = read_required_bool(doc, "has_more")?;
        let estimated_total = read_required_u32(doc, "estimated_total")?;
        Ok(Pagination { per_page, next, has_more, estimated_total })
    }
}

/// What every response says about itself.
#[derive(Clone, Debug, PartialEq, Eq)]
pub struct Meta {
    /// Identifier of the request, for support.
    pub request_id: String,
    /// Present in responses to list requests.
    pub pagination: Option<Pagination>,
}

/// What a [`Meta`] holds.
pub ghost struct MetaView {
    pub request_id: Seq<char>,
    pub pagination: Option<PaginationView>,
}

impl View for Meta {
    type V = MetaView;

    open spec fn view(&self) -> MetaView {
        MetaView { request_id: self.request_id@, pagination: self.pagination.deep_view() }
    }
}

impl DeepView for Meta {
    type V = MetaView;

    open spec fn deep_view(&self) -> MetaView {
        self@
    }
}

impl MetaView {
    /// What a meta object holds: the request identifier, which is required,
    /// and the pagination block where there is one.
    pub open spec fn decode(doc: Json) -> Result<MetaView, Seq<char>> {
        let request_id = required_text(doc, "request_id"@);
        let pagination = optional_object(doc, "pagination"@);
        if request_id is Err {
            Err(request_id->Err_0)
        } else if pagination is Err {
            Err(pagination->Err_0)
        } else {
            match pagination->Ok_0 {
                None => Ok(MetaView { request_id: request_id->Ok_0, pagination: None }),
                Some(block) => match PaginationView::decode(block) {
                    Ok(p) => Ok(MetaView { request_id: request_id->Ok_0, pagination: Some(p) }),
                    Err(name) => Err(name),
                },
            }
        }
    }
}

impl Meta {
    /// Reads a meta object.
    pub fn from_json(doc: &serde_json::Value) -> (r: Result<Meta, DecodeError>)
        ensures
            match r {
                Ok(meta) => MetaView::decode(json_model(*doc)) == Ok::<MetaView, Seq<char>>(meta@),
                Err(e) => MetaView::decode(json_model(*doc)) matches Err(name) && e.is_shape(name),
            },
    {
        let request_id = read_required_text(doc, "request_id")?;
        let pagination = match read_optional_object(doc, "pagination")? {
            Some(block) => Some(Pagination::from_json(block)?),
            None => None,
        };
        Ok(Meta { request_id, pagination })
    }

    /// Identifier of the request, for support.
    pub fn request_id(&self) -> (r: &str)
        ensures
            r@ == self@.request_id,
    {
        self.request_id.as_str()
    }
}

impl EntityStatus {
    /// Reads a status that may be absent.
    pub fn read_optional(doc: &serde_json::Value, name: &str) -> (r: Result<
        Option<EntityStatus>,
        DecodeError,
    >)
        ensures
            match r {
                Ok(status) => optional_tag(
                    json_model(*doc),
                    name@,
                    |tag: Seq<char>| EntityStatus::from_tag(tag),
                ) == Ok::<Option<EntityStatus>, Seq<char>>(status),
                Err(e) => optional_tag(
                    json_model(*doc),
                    name@,
                    |tag: Seq<char>| EntityStatus::from_tag(tag),
                ) is Err && e.is_shape(name@),
            },
    {
        match read_optional_text(doc, name)? {
            Some(tag) => match EntityStatus::from_str(tag.as_str()) {
                Ok(status) => Ok(Some(status)),
                Err(_) => Err(shape(name)),
            },
            None => Ok(None),
        }
    }
}

impl EntityType {
    /// Reads a type that may be absent.
    pub fn read_optional(doc: &serde_json::Value, name: &str) -> (r: Result<
        Option<EntityType>,
        DecodeError,
    >)
        ensures
            match r {
                Ok(kind) => optional_tag(
                    json_model(*doc),
                    name@,
                    |tag: Seq<char>| EntityType::from_tag(tag),
                ) == Ok::<Option<EntityType>, Seq<char>>(kind),
                Err(e) => optional_tag(
                    json_model(*doc),
                    name@,
                    |tag: Seq<char>| EntityType::from_tag(tag),
                ) is Err && e.is_shape(name@),
            },
    {
        match read_optional_text(doc, name)? {
            Some(tag) => match EntityType::from_str(tag.as_str()) {
                Ok(kind) => Ok(Some(kind)),
                Err(_) => Err(shape(name)),
            },
            None => Ok(None),
        }
    }
}

/// The attributes that every entity has. Each may be absent: an entity
/// that is being built holds only what the caller has set, and the service
/// fills in the identifier and the timestamps.
#[derive(Debug)]
pub struct EntityBase {
    id: Option<String>,
    name: Option<String>,
    description: Option<String>,
    p_type: Option<EntityType>,
    status: Option<EntityStatus>,
    custom_data: Option<serde_json::Value>,
    import_meta: Option<serde_json::Value>,
    created_at: Option<String>,
    updated_at: Option<String>,
}

/// What an [`EntityBase`] holds.
pub ghost struct EntityBaseView {
    pub id: Option<Seq<char>>,
    pub name: Option<Seq<char>>,
    pub description: Option<Seq<char>>,
    pub p_type: Option<EntityType>,
    pub status: Option<EntityStatus>,
    pub custom_data: Option<Json>,
    pub import_meta: Option<Json>,
    pub created_at: Option<Seq<char>>,
    pub updated_at: Option<Seq<char>>,
}

impl EntityBaseView {
    /// The attributes of an entity on which nothing has been set.
    pub open spec fn empty() -> EntityBaseView {
        EntityBaseView {
            id: None,
            name: None,
            description: None,
            p_type: None,
            status: None,
            custom_data: None,
            import_meta: None,
            created_at: None,
            updated_at: None,
        }
    }

    /// The members that the attributes add to a JSON object: one for each
    /// attribute that is set, none for the others.
    pub open spec fn members(self, start: Map<Seq<char>, Json>) -> Map<Seq<char>, Json> {
        let m = with_member(start, "id"@, text_json(self.id));
        let m = with_member(m, "name"@, text_json(self.name));
        let m = with_member(m, "description"@, text_json(self.description));
        let m = with_member(
            m,
            "type"@,
            match self.p_type {
                Some(kind) => Some(Json::String(kind.wire_tag())),
                None => None,
            },
        );
        let m = with_member(
            m,
            "status"@,
            match self.status {
                Some(status) => Some(Json::String(status.wire_tag())),
                None => None,
            },
        );
        let m = with_member(m, "custom_data"@, self.custom_data);
        let m = with_member(m, "import_meta"@, self.import_meta);
        let m = with_member(m, "created_at"@, text_json(self.created_at));
        with_member(m, "updated_at"@, text_json(self.updated_at))
    }

    /// The attributes that a JSON object holds. Every member may be absent;
    /// one that is present must be of the right kind.
    pub open spec fn decode(doc: Json) -> Result<EntityBaseView, Seq<char>> {
        let id = optional_text(doc, "id"@);
        let name = optional_text(doc, "name"@);
        let description = optional_text(doc, "description"@);
        let p_type = optional_tag(doc, "type"@, |tag: Seq<char>| EntityType::from_tag(tag));
        let status = optional_tag(doc, "status"@, |tag: Seq<char>| EntityStatus::from_tag(tag));
        let created_at = optional_text(doc, "created_at"@);
        let updated_at = optional_text(doc, "updated_at"@);
        if id is Err {
            Err(id->Err_0)
        } else if name is Err {
            Err(name->Err_0)
        } else if description is Err {
            Err(description->Err_0)
        } else if p_type is Err {
            Err(p_type->Err_0)
        } else if status is Err {
            Err(status->Err_0)
        } else if created_at is Err {
            Err(created_at->Err_0)
        } else if updated_at is Err {
            Err(updated_at->Err_0)
        } else {
            Ok(
                EntityBaseView {
                    id: id->Ok_0,
                    name: name->Ok_0,
                    description: description->Ok_0,
                    p_type: p_type->Ok_0,
                    status: status->Ok_0,
                    custom_data: present(doc, "custom_data"@),
                    import_meta: present(doc, "import_meta"@),
                    created_at: created_at->Ok_0,
                    updated_at: updated_at->Ok_0,
                },
            )
        }
    }
}

impl EntityBaseView {
    /// Whether `name` is the member name of an attribute that is set.
    pub open spec fn is_set(self, name: Seq<char>) -> bool {
        ||| name == "id"@ && self.id is Some
        ||| name == "name"@ && self.name is Some
        ||| name == "description"@ && self.description is Some
        ||| name == "type"@ && self.p_type is Some
        ||| name == "status"@ && self.status is Some
        ||| name == "custom_data"@ && self.custom_data is Some
        ||| name == "import_meta"@ && self.import_meta is Some
        ||| name == "created_at"@ && self.created_at is Some
        ||| name == "updated_at"@ && self.updated_at is Some
    }

    /// Whether `name` is the member name of an attribute that the caller
    /// has set to JSON `null` itself. Only the two attributes that hold a
    /// JSON value of the caller's can be.
    pub open spec fn is_null(self, name: Seq<char>) -> bool {
        ||| name == "custom_data"@ && self.custom_data == Some(Json::Null)
        ||| name == "import_meta"@ && self.import_meta == Some(Json::Null)
    }

    /// The lengths and first letters of the nine member names. No two names
    /// agree in both.
    pub proof fn lemma_member_names()
        ensures
            "id"@.len() == 2,
            "name"@.len() == 4 && "name"@[0] == 'n',
            "description"@.len() == 11 && "description"@[0] == 'd',
            "type"@.len() == 4 && "type"@[0] == 't',
            "status"@.len() == 6 && "status"@[0] == 's',
            "custom_data"@.len() == 11 && "custom_data"@[0] == 'c',
            "import_meta"@.len() == 11 && "import_meta"@[0] == 'i',
            "created_at"@.len() == 10 && "created_at"@[0] == 'c',
            "updated_at"@.len() == 10 && "updated_at"@[0] == 'u',
    {
        reveal_strlit("id");
        reveal_strlit("name");
        reveal_strlit("description");
        reveal_strlit("type");
        reveal_strlit("status");
        reveal_strlit("custom_data");
        reveal_strlit("import_meta");
        reveal_strlit("created_at");
        reveal_strlit("updated_at");
    }

    /// The members written for the attributes are those of the attributes
    /// that are set, added to the members that were there. No member is
    /// `null` unless the caller has set the attribute to `null` itself.
    pub proof fn lemma_members(self, start: Map<Seq<char>, Json>)
        ensures
            forall|name: Seq<char>| #[trigger]
                self.members(start).dom().contains(name) <==> (start.dom().contains(name)
                    || self.is_set(name)),
            forall|name: Seq<char>|
                self.is_set(name) ==> ((#[trigger] self.members(start)[name]) is Null
                    <==> self.is_null(name)),
            forall|name: Seq<char>|
                !self.is_set(name) ==> (#[trigger] self.members(start)[name]) == start[name],
    {
        EntityBaseView::lemma_member_names();
    }
}

impl EntityBaseView {
    /// Whether neither of the two attributes that hold a JSON value of the
    /// caller's is set to `null`. An attribute that is set to `null` is
    /// written as `null` and read back as not set.
    pub open spec fn plain(self) -> bool {
        self.custom_data != Some(Json::Null) && self.import_meta != Some(Json::Null)
    }

    /// Reading depends on the nine members of the attributes only.
    pub proof fn lemma_decode_looks_at_own_members(a: Json, b: Json)
        requires
            a.member("id"@) == b.member("id"@),
            a.member("name"@) == b.member("name"@),
            a.member("description"@) == b.member("description"@),
            a.member("type"@) == b.member("type"@),
            a.member("status"@) == b.member("status"@),
            a.member("custom_data"@) == b.member("custom_data"@),
            a.member("import_meta"@) == b.member("import_meta"@),
            a.member("created_at"@) == b.member("created_at"@),
            a.member("updated_at"@) == b.member("updated_at"@),
        ensures
            EntityBaseView::decode(a) == EntityBaseView::decode(b),
    {
    }

    /// What the members written for the attributes hold under each of the
    /// nine names: the attribute where it is set, and what was there before
    /// where it is not.
    pub proof fn lemma_member_values(self, start: Map<Seq<char>, Json>)
        ensures
            ({
                let written = Json::Object(self.members(start));
                let before = Json::Object(start);
                &&& written.member("id"@) == match self.id {
                    Some(text) => Some(Json::String(text)),
                    None => before.member("id"@),
                }
                &&& written.member("name"@) == match self.name {
                    Some(text) => Some(Json::String(text)),
                    None => before.member("name"@),
                }
                &&& written.member("description"@) == match self.description {
                    Some(text) => Some(Json::String(text)),
                    None => before.member("description"@),
                }
                &&& written.member("type"@) == match self.p_type {
                    Some(kind) => Some(Json::String(kind.wire_tag())),
                    None => before.member("type"@),
                }
                &&& written.member("status"@) == match self.status {
                    Some(status) => Some(Json::String(status.wire_tag())),
                    None => before.member("status"@),
                }
                &&& written.member("custom_data"@) == match self.custom_data {
                    Some(data) => Some(data),
                    None => before.member("custom_data"@),
                }
                &&& written.member("import_meta"@) == match self.import_meta {
                    Some(data) => Some(data),
                    None => before.member("import_meta"@),
                }
                &&& written.member("created_at"@) == match self.created_at {
                    Some(text) => Some(Json::String(text)),
                    None => before.member("created_at"@),
                }
                &&& written.member("updated_at"@) == match self.updated_at {
                    Some(text) => Some(Json::String(text)),
                    None => before.member("updated_at"@),
                }
            }),
    {
        EntityBaseView::lemma_member_names();
    }

    /// What is written for the attributes is read back as the same
    /// attributes.
    pub proof fn lemma_read_back(self)
        requires
            self.plain(),
        ensures
            EntityBaseView::decode(Json::Object(self.members(Map::empty()))) == Ok::<
                EntityBaseView,
                Seq<char>,
            >(self),
    {
        self.lemma_member_values(Map::empty());
        if self.p_type is Some {
            EntityType::lemma_wire_tag_round_trip(self.p_type->Some_0, Seq::empty());
        }
        if self.status is Some {
            EntityStatus::lemma_wire_tag_round_trip(self.status->Some_0, Seq::empty());
        }
    }
}

impl View for EntityBase {
    type V = EntityBaseView;

    closed spec fn view(&self) -> EntityBaseView {
        EntityBaseView {
            id: self.id.deep_view(),
            name: self.name.deep_view(),
            description: self.description.deep_view(),
            p_type: self.p_type,
            status: self.status,
            custom_data: opt_json_model(self.custom_data),
            import_meta: opt_json_model(self.import_meta),
            created_at: self.created_at.deep_view(),
            updated_at: self.updated_at.deep_view(),
        }
    }
}

impl Default for EntityBase {
    /// Nothing is set.
    fn default() -> (r: EntityBase)
        ensures
            r@ == EntityBaseView::empty(),
    {
        EntityBase {
            id: None,
            name: None,
            description: None,
            p_type: None,
            status: None,
            custom_data: None,
            import_meta: None,
            created_at: None,
            updated_at: None,
        }
    }
}

impl EntityBase {
    pub fn id(&self) -> (r: Option<&str>)
        ensures
            r.deep_view() == self@.id,
    {
        opt_str(&self.id)
    }

    pub fn name(&self) -> (r: Option<&str>)
        ensures
            r.deep_view() == self@.name,
    {
        opt_str(&self.name)
    }

    pub fn set_name(self, name: &str) -> (r: EntityBase)
        ensures
            r@ == (EntityBaseView { name: Some(name@), ..self@ }),
    {
        let mut base = self;
        base.name = Some(name.to_owned());
        base
    }

    pub fn description(&self) -> (r: Option<&str>)
        ensures
            r.deep_view() == self@.description,
    {
        opt_str(&self.description)
    }

    pub fn set_description(self, description: &str) -> (r: EntityBase)
        ensures
            r@ == (EntityBaseView { description: Some(description@), ..self@ }),
    {
        let mut base = self;
        base.description = Some(description.to_owned());
        base
    }

    pub fn p_type(&self) -> (r: Option<&EntityType>)
        ensures
            opt_deref(r) == self@.p_type,
    {
        self.p_type.as_ref()
    }

    pub fn set_p_type(self, p_type: EntityType) -> (r: EntityBase)
        ensures
            r@ == (EntityBaseView { p_type: Some(p_type), ..self@ }),
    {
        let mut base = self;
        base.p_type = Some(p_type);
        base
    }

    pub fn status(&self) -> (r: Option<&EntityStatus>)
        ensures
            opt_deref(r) == self@.status,
    {
        self.status.as_ref()
    }

    pub fn set_status(self, status: EntityStatus) -> (r: EntityBase)
        ensures
            r@ == (EntityBaseView { status: Some(status), ..self@ }),
    {
        let mut base = self;
        base.status = Some(status);
        base
    }

    pub fn custom_data(&self) -> (r: Option<&serde_json::Value>)
        ensures
            opt_json_ref_model(r) == self@.custom_data,
    {
        self.custom_data.as_ref()
    }

    pub fn set_custom_data(self, custom_data: serde_json::Value) -> (r: EntityBase)
        ensures
            r@ == (EntityBaseView { custom_data: Some(json_model(custom_data)), ..self@ }),
    {
        let mut base = self;
        base.custom_data = Some(custom_data);
        base
    }

    pub fn import_meta(&self) -> (r: Option<&serde_json::Value>)
        ensures
            opt_json_ref_model(r) == self@.import_meta,
    {
        self.import_meta.as_ref()
    }

    pub fn created_at(&self) -> (r: Option<&str>)
        ensures
            r.deep_view() == self@.created_at,
    {
        opt_str(&self.created_at)
    }

    pub fn updated_at(&self) -> (r: Option<&str>)
        ensures
            r.deep_view() == self@.updated_at,
    {
        opt_str(&self.updated_at)
    }

    /// Writes the attributes that are set into a JSON object.
    pub(crate) fn write_members(&self, target: &mut serde_json::Value)
        requires
            json_model(*old(target)) is Object,
        ensures
            json_model(*final(target)) == Json::Object(
                self@.members(json_model(*old(target))->Object_0),
            ),
    {
        put_text(target, "id", opt_str(&self.id));
        put_text(target, "name", opt_str(&self.name));
        put_text(target, "description", opt_str(&self.description));
        put_text(
            target,
            "type",
            match &self.p_type {
                Some(kind) => Some(kind.as_str()),
                None => None,
            },
        );
        put_text(
            target,
            "status",
            match &self.status {
                Some(status) => Some(status.as_str()),
                None => None,
            },
        );
        put(
            target,
            "custom_data",
            match &self.custom_data {
                Some(data) => Some(crate::json::duplicate(data)),
                None => None,
            },
        );
        put(
            target,
            "import_meta",
            match &self.import_meta {
                Some(data) => Some(crate::json::duplicate(data)),
                None => None,
            },
        );
        put_text(target, "created_at", opt_str(&self.created_at));
        put_text(target, "updated_at", opt_str(&self.updated_at));
    }

    /// Reads the attributes from a JSON object.
    pub fn from_json(doc: &serde_json::Value) -> (r: Result<EntityBase, DecodeError>)
        ensures
            match r {
                Ok(base) => EntityBaseView::decode(json_model(*doc)) == Ok::<
                    EntityBaseView,
                    Seq<char>,
                >(base@),
                Err(e) => EntityBaseView::decode(json_model(*doc)) matches Err(name)
                    && e.is_shape(name),
            },
    {
        let id = read_optional_text(doc, "id")?;
        let name = read_optional_text(doc, "name")?;
        let description = read_optional_text(doc, "description")?;
        let p_type = EntityType::read_optional(doc, "type")?;
        let status = EntityStatus::read_optional(doc, "status")?;
        let created_at = read_optional_text(doc, "created_at")?;
        let updated_at = read_optional_text(doc, "updated_at")?;
        let custom_data = read_optional_value(doc, "custom_data");
        let import_meta = read_optional_value(doc, "import_meta");
        Ok(
            EntityBase {
                id,
                name,
                description,
                p_type,
                status,
                custom_data,
                import_meta,
                created_at,
                updated_at,
            },
        )
    }
}

/// Readers and builders for the attributes that every entity has.
pub trait EntityBaseGettersSetters: Sized {
    /// The shared attributes of the entity.
    spec fn base(&self) -> EntityBaseView;

    /// Unique Paddle ID, assigned by the service.
    fn id(&self) -> (r: Option<&str>)
        ensures
            r.deep_view() == self.base().id,
    ;

    /// Name of the entity.
    fn name(&self) -> (r: Option<&str>)
        ensures
            r.deep_view() == self.base().name,
    ;

    /// Sets the name of the entity.
    fn set_name(self, name: &str) -> (r: Self)
        ensures
            r.base() == (EntityBaseView { name: Some(name@), ..self.base() }),
    ;

    /// Description of the entity.
    fn description(&self) -> (r: Option<&str>)
        ensures
            r.deep_view() == self.base().description,
    ;

    /// Sets the description of the entity.
    fn set_description(self, description: &str) -> (r: Self)
        ensures
            r.base() == (EntityBaseView { description: Some(description@), ..self.base() }),
    ;

    /// Type of the entity.
    fn p_type(&self) -> (r: Option<&EntityType>)
        ensures
            opt_deref(r) == self.base().p_type,
    ;

    /// Sets the type of the entity.
    fn set_p_type(self, p_type: EntityType) -> (r: Self)
        ensures
            r.base() == (EntityBaseView { p_type: Some(p_type), ..self.base() }),
    ;

    /// Status of the entity.
    fn status(&self) -> (r: Option<&EntityStatus>)
        ensures
            opt_deref(r) == self.base().status,
    ;

    /// Sets the status of the entity.
    fn set_status(self, status: EntityStatus) -> (r: Self)
        ensures
            r.base() == (EntityBaseView { status: Some(status), ..self.base() }),
    ;

    /// Custom data of the entity: structured data of the caller's own.
    fn custom_data(&self) -> (r: Option<&serde_json::Value>)
        ensures
            opt_json_ref_model(r) == self.base().custom_data,
    ;

    /// Sets the custom data of the entity.
    fn set_custom_data(self, custom_data: serde_json::Value) -> (r: Self)
        ensures
            r.base() == (EntityBaseView {
                custom_data: Some(json_model(custom_data)),
                ..self.base()
            }),
    ;

    /// Where the entity was imported from, if it was imported.
    fn import_meta(&self) -> (r: Option<&serde_json::Value>)
        ensures
            opt_json_ref_model(r) == self.base().import_meta,
    ;

    /// When the entity was created, as an ISO 8601 timestamp.
    fn created_at(&self) -> (r: Option<&str>)
        ensures
            r.deep_view() == self.base().created_at,
    ;

    /// When the entity was last changed, as an ISO 8601 timestamp.
    fn updated_at(&self) -> (r: Option<&str>)
        ensures
            r.deep_view() == self.base().updated_at,
    ;
}

/// The values of a multi-valued filter as one text: the values in their
/// given order with a comma between neighbours. An empty list gives the
/// empty text, so a filter that is set to no values is still written.
pub open spec fn comma_joined(values: Option<Seq<Seq<char>>>) -> Option<Seq<char>> {
    match values {
        Some(parts) => Some(joined(parts, ","@)),
        None => None,
    }
}

/// Three values are written as the three values in their given order with a
/// comma between neighbours.
pub proof fn lemma_three_values_comma_joined(a: Seq<char>, b: Seq<char>, c: Seq<char>)
    ensures
        comma_joined(Some(seq![a, b, c])) == Some(a + ","@ + b + ","@ + c),
{
    let parts = seq![a, b, c];
    assert(parts.drop_last() =~= seq![a, b]);
    assert(parts.drop_last().drop_last() =~= seq![a]);
    assert(joined(seq![a], ","@) == a);
    assert(joined(seq![a, b], ","@) == a + ","@ + b);
}

/// The wire tags of a list of statuses.
pub fn status_tag_list(statuses: &Vec<EntityStatus>) -> (r: Vec<String>)
    ensures
        r.deep_view() == status_tags(statuses@),
{
    let mut tags: Vec<String> = Vec::new();
    let mut i: usize = 0;
    while i < statuses.len()
        invariant
            i <= statuses.len(),
            tags.len() == i,
            forall|k: int| 0 <= k < i ==> (#[trigger] tags[k])@ == statuses[k].wire_tag(),
        decreases statuses.len() - i,
    {
        tags.push(statuses[i].to_string());
        i += 1;
    }
    assert(tags.deep_view() =~= status_tags(statuses@));
    tags
}

/// The filters and paging controls that every list request has. Each may
/// be absent; an absent one is not sent.
#[derive(Clone, Debug, PartialEq, Eq)]
pub struct BaseListParams {
    after: Option<String>,
    id: Option<Vec<String>>,
    includes: Option<Vec<String>>,
    order_by: Option<String>,
    per_page: Option<i32>,
    status: Option<Vec<EntityStatus>>,
    p_type: Option<EntityType>,
}

/// What a [`BaseListParams`] holds.
pub ghost struct BaseListParamsView {
    pub after: Option<Seq<char>>,
    pub id: Option<Seq<Seq<char>>>,
    pub includes: Option<Seq<Seq<char>>>,
    pub order_by: Option<Seq<char>>,
    pub per_page: Option<i32>,
    pub status: Option<Seq<EntityStatus>>,
    pub p_type: Option<EntityType>,
}

impl BaseListParamsView {
    /// No filter and no paging control is set.
    pub open spec fn empty() -> BaseListParamsView {
        BaseListParamsView {
            after: None,
            id: None,
            includes: None,
            order_by: None,
            per_page: None,
            status: None,
            p_type: None,
        }
    }

    /// The pairs for `after`, `id`, the related entities, `order_by`, `per_page` and
    /// `status`, in this order, added to `start`. Each parameter that is set
    /// adds exactly one pair.
    pub open spec fn leading_pairs(self, start: Seq<(Seq<char>, Seq<char>)>) -> Seq<
        (Seq<char>, Seq<char>),
    > {
        let p = with_pair(start, "after"@, self.after);
        let p = with_pair(p, "id"@, comma_joined(self.id));
        let p = with_pair(p, EMBED@, comma_joined(self.includes));
        let p = with_pair(p, "order_by"@, self.order_by);
        let p = with_pair(
            p,
            "per_page"@,
            match self.per_page {
                Some(n) => Some(decimal(n as int)),
                None => None,
            },
        );
        with_pair(
            p,
            "status"@,
            comma_joined(
                match self.status {
                    Some(statuses) => Some(status_tags(statuses)),
                    None => None,
                },
            ),
        )
    }

    /// The pair for `type`, added to `start`.
    pub open spec fn trailing_pairs(self, start: Seq<(Seq<char>, Seq<char>)>) -> Seq<
        (Seq<char>, Seq<char>),
    > {
        with_pair(
            start,
            "type"@,
            match self.p_type {
                Some(kind) => Some(kind.wire_tag()),
                None => None,
            },
        )
    }
}

impl BaseListParamsView {
    /// How many of the parameters `after`, `id`, related entities,
    /// `order_by`, `per_page` and `status` are set.
    pub open spec fn leading_count(self) -> nat {
        ((if self.after is Some {
            1nat
        } else {
            0nat
        }) + (if self.id is Some {
            1nat
        } else {
            0nat
        }) + (if self.includes is Some {
            1nat
        } else {
            0nat
        }) + (if self.order_by is Some {
            1nat
        } else {
            0nat
        }) + (if self.per_page is Some {
            1nat
        } else {
            0nat
        }) + (if self.status is Some {
            1nat
        } else {
            0nat
        })) as nat
    }

    /// Every parameter that is set adds exactly one pair, and the pairs
    /// that were there stay where they were.
    pub proof fn lemma_leading_pairs(self, start: Seq<(Seq<char>, Seq<char>)>)
        ensures
            self.leading_pairs(start).len() == start.len() + self.leading_count(),
            forall|i: int| 0 <= i < start.len() ==> self.leading_pairs(start)[i] == start[i],
            self.id matches Some(values) ==> self.leading_pairs(start).contains(
                ("id"@, joined(values, ","@)),
            ),
            self.includes matches Some(values) ==> self.leading_pairs(start).contains(
                (EMBED@, joined(values, ","@)),
            ),
            self.status matches Some(values) ==> self.leading_pairs(start).contains(
                ("status"@, joined(status_tags(values), ","@)),
            ),
    {
        let with_after = with_pair(start, "after"@, self.after);
        let with_id = with_pair(with_after, "id"@, comma_joined(self.id));
        let with_related = with_pair(with_id, EMBED@, comma_joined(self.includes));
        let with_order = with_pair(with_related, "order_by"@, self.order_by);
        let with_paging = with_pair(
            with_order,
            "per_page"@,
            match self.per_page {
                Some(n) => Some(decimal(n as int)),
                None => None,
            },
        );
        let all = self.leading_pairs(start);
        if self.id is Some {
            let pair = ("id"@, joined(self.id->Some_0, ","@));
            assert(with_id[with_id.len() - 1] == pair);
            assert(all[with_id.len() - 1] == pair);
        }
        if self.includes is Some {
            let pair = (EMBED@, joined(self.includes->Some_0, ","@));
            assert(with_related[with_related.len() - 1] == pair);
            assert(all[with_related.len() - 1] == pair);
        }
        if self.status is Some {
            let pair = ("status"@, joined(status_tags(self.status->Some_0), ","@));
            assert(all[all.len() - 1] == pair);
        }
    }
}

impl View for BaseListParams {
    type V = BaseListParamsView;

    closed spec fn view(&self) -> BaseListParamsView {
        BaseListParamsView {
            after: self.after.deep_view(),
            id: self.id.deep_view(),
            includes: self.includes.deep_view(),
            order_by: self.order_by.deep_view(),
            per_page: self.per_page,
            status: match self.status {
                Some(statuses) => Some(statuses@),
                None => None,
            },
            p_type: self.p_type,
        }
    }
}

impl Default for BaseListParams {
    /// Nothing is set.
    fn default() -> (r: BaseListParams)
        ensures
            r@ == BaseListParamsView::empty(),
    {
        BaseListParams {
            after: None,
            id: None,
            includes: None,
            order_by: None,
            per_page: None,
            status: None,
            p_type: None,
        }
    }
}

impl BaseListParams {
    pub fn after(&self) -> (r: Option<&str>)
        ensures
            r.deep_view() == self@.after,
    {
        opt_str(&self.after)
    }

    pub fn set_after(self, after: &str) -> (r: BaseListParams)
        ensures
            r@ == (BaseListParamsView { after: Some(after@), ..self@ }),
    {
        let mut params = self;
        params.after = Some(after.to_owned());
        params
    }

    pub fn id(&self) -> (r: Option<&Vec<String>>)
        ensures
            r.deep_view() == self@.id,
    {
        self.id.as_ref()
    }

    pub fn set_id(self, id: Vec<String>) -> (r: BaseListParams)
        ensures
            r@ == (BaseListParamsView { id: Some(id.deep_view()), ..self@ }),
    {
        let mut params = self;
        params.id = Some(id);
        params
    }

    pub fn includes(&self) -> (r: Option<&Vec<String>>)
        ensures
            r.deep_view() == self@.includes,
    {
        self.includes.as_ref()
    }

    pub fn set_include(self, includes: Vec<String>) -> (r: BaseListParams)
        ensures
            r@ == (BaseListParamsView { includes: Some(includes.deep_view()), ..self@ }),
    {
        let mut params = self;
        params.includes = Some(includes);
        params
    }

    pub fn order_by(&self) -> (r: Option<&str>)
        ensures
            r.deep_view() == self@.order_by,
    {
        opt_str(&self.order_by)
    }

    pub fn set_order_by(self, order_by: &str) -> (r: BaseListParams)
        ensures
            r@ == (BaseListParamsView { order_by: Some(order_by@), ..self@ }),
    {
        let mut params = self;
        params.order_by = Some(order_by.to_owned());
        params
    }

    pub fn per_page(&self) -> (r: Option<i32>)
        ensures
            r == self@.per_page,
    {
        self.per_page
    }

    pub fn set_per_page(self, per_page: i32) -> (r: BaseListParams)
        ensures
            r@ == (BaseListParamsView { per_page: Some(per_page), ..self@ }),
    {
        let mut params = self;
        params.per_page = Some(per_page);
        params
    }

    pub fn status(&self) -> (r: Option<&Vec<EntityStatus>>)
        ensures
            opt_seq(r) == self@.status,
    {
        self.status.as_ref()
    }

    pub fn set_status(self, status: Vec<EntityStatus>) -> (r: BaseListParams)
        ensures
            r@ == (BaseListParamsView { status: Some(status@), ..self@ }),
    {
        let mut params = self;
        params.status = Some(status);
        params
    }

    pub fn p_type(&self) -> (r: Option<&EntityType>)
        ensures
            opt_deref(r) == self@.p_type,
    {
        self.p_type.as_ref()
    }

    pub fn set_p_type(self, p_type: EntityType) -> (r: BaseListParams)
        ensures
            r@ == (BaseListParamsView { p_type: Some(p_type), ..self@ }),
    {
        let mut params = self;
        params.p_type = Some(p_type);
        params
    }

    /// Adds the pairs for `after`, `id`, the related entities, `order_by`, `per_page`
    /// and `status`.
    pub fn push_leading_pairs(&self, pairs: &mut Vec<QueryPair>)
        ensures
            final(pairs).deep_view() == self@.leading_pairs(old(pairs).deep_view()),
    {
        push_pair(
            pairs,
            "after",
            match &self.after {
                Some(after) => Some(after.clone()),
                None => None,
            },
        );
        push_pair(
            pairs,
            "id",
            match &self.id {
                Some(ids) => Some(join(ids, ",")),
                None => None,
            },
        );
        push_pair(
            pairs,
            EMBED,
            match &self.includes {
                Some(names) => Some(join(names, ",")),
                None => None,
            },
        );
        push_pair(
            pairs,
            "order_by",
            match &self.order_by {
                Some(order) => Some(order.clone()),
                None => None,
            },
        );
        push_pair(
            pairs,
            "per_page",
            match self.per_page {
                Some(n) => Some(i32_to_string(n)),
                None => None,
            },
        );
        push_pair(
            pairs,
            "status",
            match &self.status {
                Some(statuses) => {
                    let tags = status_tag_list(statuses);
                    Some(join(&tags, ","))
                },
                None => None,
            },
        );
    }

    /// Adds the pair for `type`.
    pub fn push_trailing_pairs(&self, pairs: &mut Vec<QueryPair>)
        ensures
            final(pairs).deep_view() == self@.trailing_pairs(old(pairs).deep_view()),
    {
        push_pair(
            pairs,
            "type",
            match &self.p_type {
                Some(kind) => Some(kind.to_string()),
                None => None,
            },
        );
    }
}

/// The items behind an optional reference to a list.
pub open spec fn opt_seq<T>(value: Option<&Vec<T>>) -> Option<Seq<T>> {
    match value {
        Some(items) => Some(items@),
        None => None,
    }
}

/// Readers and builders for the filters and paging controls that every
/// list request has.
pub trait BaseListParamsGettersSetters: Sized {
    /// The shared parameters of the request.
    spec fn list_base(&self) -> BaseListParamsView;

    /// Return entities after the one with this Paddle ID.
    fn after(&self) -> (r: Option<&str>)
        ensures
            r.deep_view() == self.list_base().after,
    ;

    /// Return entities after the one with this Paddle ID. The cursor is
    /// found in the `next` address of the previous page.
    fn set_after(self, after: &str) -> (r: Self)
        ensures
            r.list_base() == (BaseListParamsView { after: Some(after@), ..self.list_base() }),
    ;

    /// Return only entities with these Paddle IDs.
    fn id(&self) -> (r: Option<&Vec<String>>)
        ensures
            r.deep_view() == self.list_base().id,
    ;

    /// Return only entities with these Paddle IDs.
    fn set_id(self, id: Vec<String>) -> (r: Self)
        ensures
            r.list_base() == (BaseListParamsView { id: Some(id.deep_view()), ..self.list_base() }),
    ;

    /// Related entities to embed in each returned entity.
    fn includes(&self) -> (r: Option<&Vec<String>>)
        ensures
            r.deep_view() == self.list_base().includes,
    ;

    /// Related entities to embed in each returned entity.
    fn set_include(self, includes: Vec<String>) -> (r: Self)
        ensures
            r.list_base() == (BaseListParamsView {
                includes: Some(includes.deep_view()),
                ..self.list_base()
            }),
    ;

    /// Field and direction to order by.
    fn order_by(&self) -> (r: Option<&str>)
        ensures
            r.deep_view() == self.list_base().order_by,
    ;

    /// Order by a field, ascending or descending, for example `id[ASC]`.
    fn set_order_by(self, order_by: &str) -> (r: Self)
        ensures
            r.list_base() == (BaseListParamsView {
                order_by: Some(order_by@),
                ..self.list_base()
            }),
    ;

    /// How many entities a page holds.
    fn per_page(&self) -> (r: Option<i32>)
        ensures
            r == self.list_base().per_page,
    ;

    /// How many entities a page holds. The service decides what it does
    /// with a number outside its limits; none is enforced here.
    fn set_per_page(self, per_page: i32) -> (r: Self)
        ensures
            r.list_base() == (BaseListParamsView {
                per_page: Some(per_page),
                ..self.list_base()
            }),
    ;

    /// Return only entities with one of these statuses.
    fn status(&self) -> (r: Option<&Vec<EntityStatus>>)
        ensures
            opt_seq(r) == self.list_base().status,
    ;

    /// Return only entities with one of these statuses.
    fn set_status(self, status: Vec<EntityStatus>) -> (r: Self)
        ensures
            r.list_base() == (BaseListParamsView { status: Some(status@), ..self.list_base() }),
    ;

    /// Return only entities of this type.
    fn p_type(&self) -> (r: Option<&EntityType>)
        ensures
            opt_deref(r) == self.list_base().p_type,
    ;

    /// Return only entities of this type.
    fn set_p_type(self, p_type: EntityType) -> (r: Self)
        ensures
            r.list_base() == (BaseListParamsView { p_type: Some(p_type), ..self.list_base() }),
    ;
}

} // verus!
