//! Products: the items that customers can purchase.

pub mod create;
pub mod get;
pub mod list;
pub mod update;

use crate::decode::{
    optional_array, optional_tag, optional_text, read_optional_array, read_optional_text,
    read_required_object, required_object, shape,
};
use crate::encode::{put, put_text, text_json, with_member};
use crate::entities::price::{Price, PriceView};
use crate::entities::{
    opt_deref, opt_str, EntityBase, EntityBaseGettersSetters, EntityBaseView, EntityStatus,
    EntityType, Meta, MetaView,
};
use crate::error::{ClientError, DecodeError, PaddleError};
use crate::json::{json_model, Json};
use crate::text::str_eq;
use vstd::prelude::*;
use vstd::string::*;

verus! {

/// Tax category of a product, used for charging the correct rate of tax.
/// The selected category must be enabled on the Paddle account.
#[derive(Clone, Copy, Debug, PartialEq, Eq, Structural)]
pub enum ProductTaxCategory {
    DigitalGoods,
    EBooks,
    ImplementationServices,
    ProfessionalServices,
    SaaS,
    SoftwareProgrammingServices,
    Standard,
    TrainingServices,
    WebsiteHosting,
}

impl ProductTaxCategory {
    /// The tag that stands for the category on the wire.
    pub open spec fn wire_tag(self) -> Seq<char> {
        match self {
            ProductTaxCategory::DigitalGoods => "digital-goods"@,
            ProductTaxCategory::EBooks => "ebooks"@,
            ProductTaxCategory::ImplementationServices => "implementation-services"@,
            ProductTaxCategory::ProfessionalServices => "professional-services"@,
            ProductTaxCategory::SaaS => "saas"@,
            ProductTaxCategory::SoftwareProgrammingServices => "software-programming-services"@,
            ProductTaxCategory::Standard => "standard"@,
            ProductTaxCategory::TrainingServices => "training-services"@,
            ProductTaxCategory::WebsiteHosting => "website-hosting"@,
        }
    }

    /// The category that a wire tag stands for, if it stands for one.
    pub open spec fn from_tag(tag: Seq<char>) -> Option<ProductTaxCategory> {
        if tag == "digital-goods"@ {
            Some(ProductTaxCategory::DigitalGoods)
        } else if tag == "ebooks"@ {
            Some(ProductTaxCategory::EBooks)
        } else if tag == "implementation-services"@ {
            Some(ProductTaxCategory::ImplementationServices)
        } else if tag == "professional-services"@ {
            Some(ProductTaxCategory::ProfessionalServices)
        } else if tag == "saas"@ {
            Some(ProductTaxCategory::SaaS)
        } else if tag == "software-programming-services"@ {
            Some(ProductTaxCategory::SoftwareProgrammingServices)
        } else if tag == "standard"@ {
            Some(ProductTaxCategory::Standard)
        } else if tag == "training-services"@ {
            Some(ProductTaxCategory::TrainingServices)
        } else if tag == "website-hosting"@ {
            Some(ProductTaxCategory::WebsiteHosting)
        } else {
            None
        }
    }

    /// The wire tag of the category.
    pub fn as_str(&self) -> (r: &'static str)
        ensures
            r@ == self.wire_tag(),
    {
        match self {
            ProductTaxCategory::DigitalGoods => "digital-goods",
            ProductTaxCategory::EBooks => "ebooks",
            ProductTaxCategory::ImplementationServices => "implementation-services",
            ProductTaxCategory::ProfessionalServices => "professional-services",
            ProductTaxCategory::SaaS => "saas",
            ProductTaxCategory::SoftwareProgrammingServices => "software-programming-services",
            ProductTaxCategory::Standard => "standard",
            ProductTaxCategory::TrainingServices => "training-services",
            ProductTaxCategory::WebsiteHosting => "website-hosting",
        }
    }

    /// The wire tag of the category, as an owned string.
    pub fn to_string(&self) -> (r: String)
        ensures
            r@ == self.wire_tag(),
    {
        String::from_str(self.as_str())
    }

    /// Reads a wire tag. Unknown tags are reported, never guessed.
    pub fn from_str(s: &str) -> (r: Result<ProductTaxCategory, String>)
        ensures
            match r {
                Ok(category) => ProductTaxCategory::from_tag(s@) == Some(category),
                Err(message) => ProductTaxCategory::from_tag(s@) is None && message@
                    == "Unknown product tax category"@,
            },
    {
        if str_eq(s, "digital-goods") {
            Ok(ProductTaxCategory::DigitalGoods)
        } else if str_eq(s, "ebooks") {
            Ok(ProductTaxCategory::EBooks)
        } else if str_eq(s, "implementation-services") {
            Ok(ProductTaxCategory::ImplementationServices)
        } else if str_eq(s, "professional-services") {
            Ok(ProductTaxCategory::ProfessionalServices)
        } else if str_eq(s, "saas") {
            Ok(ProductTaxCategory::SaaS)
        } else if str_eq(s, "software-programming-services") {
            Ok(ProductTaxCategory::SoftwareProgrammingServices)
        } else if str_eq(s, "standard") {
            Ok(ProductTaxCategory::Standard)
        } else if str_eq(s, "training-services") {
            Ok(ProductTaxCategory::TrainingServices)
        } else if str_eq(s, "website-hosting") {
            Ok(ProductTaxCategory::WebsiteHosting)
        } else {
            Err(String::from_str("Unknown product tax category"))
        }
    }

    /// No two categories share a wire tag: the nine tags differ in length.
    proof fn lemma_tag_lengths()
        ensures
            "digital-goods"@.len() == 13,
            "ebooks"@.len() == 6,
            "implementation-services"@.len() == 23,
            "professional-services"@.len() == 21,
            "saas"@.len() == 4,
            "software-programming-services"@.len() == 29,
            "standard"@.len() == 8,
            "training-services"@.len() == 17,
            "website-hosting"@.len() == 15,
    {
        reveal_strlit("digital-goods");
        reveal_strlit("ebooks");
        reveal_strlit("implementation-services");
        reveal_strlit("professional-services");
        reveal_strlit("saas");
        reveal_strlit("software-programming-services");
        reveal_strlit("standard");
        reveal_strlit("training-services");
        reveal_strlit("website-hosting");
    }

    /// Every category is read back from its own wire tag, and a tag that is
    /// read as a category is the wire tag of that category.
    pub proof fn lemma_wire_tag_round_trip(category: ProductTaxCategory, tag: Seq<char>)
        ensures
            ProductTaxCategory::from_tag(category.wire_tag()) == Some(category),
            ProductTaxCategory::from_tag(tag) matches Some(read) ==> read.wire_tag() == tag,
    {
        ProductTaxCategory::lemma_tag_lengths();
    }
}

/// The wire tags of a sequence of categories, in the same order.
pub open spec fn category_tags(categories: Seq<ProductTaxCategory>) -> Seq<Seq<char>> {
    Seq::new(categories.len(), |i: int| categories[i].wire_tag())
}

/// The wire tags of a list of categories.
pub fn category_tag_list(categories: &Vec<ProductTaxCategory>) -> (r: Vec<String>)
    ensures
        r.deep_view() == category_tags(categories@),
{
    let mut tags: Vec<String> = Vec::new();
    let mut i: usize = 0;
    while i < categories.len()
        invariant
            i <= categories.len(),
            tags.len() == i,
            forall|k: int| 0 <= k < i ==> (#[trigger] tags[k])@ == categories[k].wire_tag(),
        decreases categories.len() - i,
    {
        tags.push(categories[i].to_string());
        i += 1;
    }
    assert(tags.deep_view() =~= category_tags(categories@));
    tags
}

/// A product: what customers can purchase, without how it is charged.
#[derive(Debug)]
pub struct Product {
    base: EntityBase,
    tax_category: Option<ProductTaxCategory>,
    image_url: Option<String>,
    prices: Option<Vec<Price>>,
}

/// What a [`Product`] holds.
pub ghost struct ProductView {
    pub base: EntityBaseView,
    pub tax_category: Option<ProductTaxCategory>,
    pub image_url: Option<Seq<char>>,
    /// The prices of the product, where the service was asked to embed
    /// them.
    pub prices: Option<Seq<PriceView>>,
}

impl View for Product {
    type V = ProductView;

    closed spec fn view(&self) -> ProductView
        decreases self,
    {
        ProductView {
            base: self.base@,
            tax_category: self.tax_category,
            image_url: self.image_url.deep_view(),
            prices: match self.prices {
                Some(prices) => Some(
                    Seq::new(
                        prices@.len(),
                        |i: int|
                            if 0 <= i < prices@.len() {
                                prices@[i].view()
                            } else {
                                arbitrary()
                            },
                    ),
                ),
                None => None,
            },
        }
    }
}

impl DeepView for Product {
    type V = ProductView;

    open spec fn deep_view(&self) -> ProductView {
        self@
    }
}

impl ProductTaxCategory {
    /// Reads a category that may be absent.
    pub fn read_optional(doc: &serde_json::Value, name: &str) -> (r: Result<
        Option<ProductTaxCategory>,
        DecodeError,
    >)
        ensures
            match r {
                Ok(category) => optional_tag(
                    json_model(*doc),
                    name@,
                    |tag: Seq<char>| ProductTaxCategory::from_tag(tag),
                ) == Ok::<Option<ProductTaxCategory>, Seq<char>>(category),
                Err(e) => optional_tag(
                    json_model(*doc),
                    name@,
                    |tag: Seq<char>| ProductTaxCategory::from_tag(tag),
                ) is Err && e.is_shape(name@),
            },
    {
        match read_optional_text(doc, name)? {
            Some(tag) => match ProductTaxCategory::from_str(tag.as_str()) {
                Ok(category) => Ok(Some(category)),
                Err(_) => Err(shape(name)),
            },
            None => Ok(None),
        }
    }
}

impl ProductView {
    /// A product on which nothing has been set.
    pub open spec fn empty() -> ProductView {
        ProductView {
            base: EntityBaseView::empty(),
            tax_category: None,
            image_url: None,
            prices: None,
        }
    }

    /// The JSON object of the product: one member for each attribute that
    /// is set, none for the others.
    pub open spec fn to_json(self) -> Json
        decreases self, 0nat,
    {
        let m = self.base.members(Map::empty());
        let m = with_member(
            m,
            "tax_category"@,
            match self.tax_category {
                Some(category) => Some(Json::String(category.wire_tag())),
                None => None,
            },
        );
        let m = with_member(m, "image_url"@, text_json(self.image_url));
        Json::Object(
            with_member(
                m,
                "prices"@,
                match self.prices {
                    Some(prices) => Some(PriceView::list_to_json(prices)),
                    None => None,
                },
            ),
        )
    }

    /// What a product object holds. Every member may be absent; one that is
    /// present must be of the right kind.
    pub open spec fn decode(doc: Json) -> Result<ProductView, Seq<char>>
        decreases doc, 0nat,
    {
        let base = EntityBaseView::decode(doc);
        let tax_category = optional_tag(
            doc,
            "tax_category"@,
            |tag: Seq<char>| ProductTaxCategory::from_tag(tag),
        );
        let image_url = optional_text(doc, "image_url"@);
        let prices = optional_array(doc, "prices"@);
        if base is Err {
            Err(base->Err_0)
        } else if tax_category is Err {
            Err(tax_category->Err_0)
        } else if image_url is Err {
            Err(image_url->Err_0)
        } else if prices is Err {
            Err(prices->Err_0)
        } else {
            let known = ProductView {
                base: base->Ok_0,
                tax_category: tax_category->Ok_0,
                image_url: image_url->Ok_0,
                prices: None,
            };
            match prices->Ok_0 {
                None => Ok(known),
                Some(items) => match PriceView::decode_list(items, "prices"@) {
                    Ok(list) => Ok(ProductView { prices: Some(list), ..known }),
                    Err(name) => Err(name),
                },
            }
        }
    }

    /// What an item of an array of products holds: the item must be an
    /// object, or the array is reported by its name.
    pub open spec fn decode_item(item: Json, name: Seq<char>) -> Result<ProductView, Seq<char>> {
        if item is Object {
            ProductView::decode(item)
        } else {
            Err(name)
        }
    }
}

impl ProductView {
    /// Whether `name` is the member name of an attribute that is set.
    pub open spec fn is_set(self, name: Seq<char>) -> bool {
        ||| self.base.is_set(name)
        ||| name == "tax_category"@ && self.tax_category is Some
        ||| name == "image_url"@ && self.image_url is Some
        ||| name == "prices"@ && self.prices is Some
    }

    /// The body that is sent for a product has a member for each attribute
    /// that is set and for no other: what is not set is left out, not sent
    /// as `null`. A member is `null` only where the caller has set the
    /// attribute to `null` itself.
    pub proof fn lemma_unset_attributes_left_out(self)
        ensures
            self.to_json() is Object,
            forall|name: Seq<char>| #[trigger]
                self.to_json()->Object_0.dom().contains(name) <==> self.is_set(name),
            forall|name: Seq<char>|
                self.is_set(name) ==> ((#[trigger] self.to_json()->Object_0[name]) is Null
                    <==> self.base.is_null(name)),
    {
        EntityBaseView::lemma_member_names();
        self.base.lemma_members(Map::empty());
        reveal_strlit("tax_category");
        reveal_strlit("image_url");
        reveal_strlit("prices");
        assert("tax_category"@.len() == 12);
        assert("image_url"@.len() == 9);
        assert("prices"@.len() == 6 && "prices"@[0] == 'p');
    }

    /// A product on which only the status is set is sent as a body with
    /// exactly one member, the status.
    pub proof fn lemma_only_status_set(status: EntityStatus)
        ensures
            (ProductView {
                base: EntityBaseView { status: Some(status), ..EntityBaseView::empty() },
                ..ProductView::empty()
            }).to_json() == Json::Object(
                Map::empty().insert("status"@, Json::String(status.wire_tag())),
            ),
    {
    }
}

impl ProductView {
    /// Whether no attribute that holds a JSON value of the caller's is set
    /// to `null`, here or in an embedded price.
    pub open spec fn plain(self) -> bool
        decreases self, 0nat,
    {
        &&& self.base.plain()
        &&& match self.prices {
            Some(prices) => PriceView::all_plain(prices),
            None => true,
        }
    }

    /// What is written for a product is read back as the same product.
    pub proof fn lemma_read_back(self)
        requires
            self.plain(),
        ensures
            self.to_json() is Object,
            ProductView::decode(self.to_json()) == Ok::<ProductView, Seq<char>>(self),
        decreases self, 1nat,
    {
        let doc = self.to_json();
        EntityBaseView::lemma_member_names();
        reveal_strlit("tax_category");
        reveal_strlit("image_url");
        reveal_strlit("prices");
        assert("tax_category"@.len() == 12);
        assert("image_url"@.len() == 9);
        assert("prices"@.len() == 6 && "prices"@[0] == 'p');
        self.base.lemma_member_values(Map::empty());
        self.base.lemma_read_back();
        EntityBaseView::lemma_decode_looks_at_own_members(
            doc,
            Json::Object(self.base.members(Map::empty())),
        );
        assert(EntityBaseView::decode(doc) == Ok::<EntityBaseView, Seq<char>>(self.base));
        if self.tax_category is Some {
            ProductTaxCategory::lemma_wire_tag_round_trip(
                self.tax_category->Some_0,
                Seq::empty(),
            );
        }
        if self.prices is Some {
            PriceView::lemma_list_read_back(self.prices->Some_0, "prices"@);
        }
    }
}

impl Default for Product {
    /// Nothing is set.
    fn default() -> (r: Product)
        ensures
            r@ == ProductView::empty(),
    {
        Product { base: EntityBase::default(), tax_category: None, image_url: None, prices: None }
    }
}

impl EntityBaseGettersSetters for Product {
    open spec fn base(&self) -> EntityBaseView {
        self@.base
    }

    fn id(&self) -> (r: Option<&str>) {
        self.base.id()
    }

    fn name(&self) -> (r: Option<&str>) {
        self.base.name()
    }

    fn set_name(self, name: &str) -> (r: Self)
        ensures
            r@ == (ProductView { base: r@.base, ..self@ }),
    {
        let mut product = self;
        product.base = product.base.set_name(name);
        product
    }

    fn description(&self) -> (r: Option<&str>) {
        self.base.description()
    }

    fn set_description(self, description: &str) -> (r: Self)
        ensures
            r@ == (ProductView { base: r@.base, ..self@ }),
    {
        let mut product = self;
        product.base = product.base.set_description(description);
        product
    }

    fn p_type(&self) -> (r: Option<&EntityType>) {
        self.base.p_type()
    }

    fn set_p_type(self, p_type: EntityType) -> (r: Self)
        ensures
            r@ == (ProductView { base: r@.base, ..self@ }),
    {
        let mut product = self;
        product.base = product.base.set_p_type(p_type);
        product
    }

    fn status(&self) -> (r: Option<&EntityStatus>) {
        self.base.status()
    }

    fn set_status(self, status: EntityStatus) -> (r: Self)
        ensures
            r@ == (ProductView { base: r@.base, ..self@ }),
    {
        let mut product = self;
        product.base = product.base.set_status(status);
        product
    }

    fn custom_data(&self) -> (r: Option<&serde_json::Value>) {
        self.base.custom_data()
    }

    fn set_custom_data(self, custom_data: serde_json::Value) -> (r: Self)
        ensures
            r@ == (ProductView { base: r@.base, ..self@ }),
    {
        let mut product = self;
        product.base = product.base.set_custom_data(custom_data);
        product
    }

    fn import_meta(&self) -> (r: Option<&serde_json::Value>) {
        self.base.import_meta()
    }

    fn created_at(&self) -> (r: Option<&str>) {
        self.base.created_at()
    }

    fn updated_at(&self) -> (r: Option<&str>) {
        self.base.updated_at()
    }
}

impl Product {
    /// Tax category of the product.
    pub fn tax_category(&self) -> (r: Option<&ProductTaxCategory>)
        ensures
            opt_deref(r) == self@.tax_category,
    {
        self.tax_category.as_ref()
    }

    /// Sets the tax category. The service requires one when a product is
    /// created.
    pub fn set_tax_category(self, tax_category: ProductTaxCategory) -> (r: Product)
        ensures
            r@ == (ProductView { tax_category: Some(tax_category), ..self@ }),
    {
        let mut product = self;
        product.tax_category = Some(tax_category);
        product
    }

    /// Address of an image of the product.
    pub fn image_url(&self) -> (r: Option<&str>)
        ensures
            r.deep_view() == self@.image_url,
    {
        opt_str(&self.image_url)
    }

    /// Sets the address of an image of the product.
    pub fn set_image_url(self, image_url: &str) -> (r: Product)
        ensures
            r@ == (ProductView { image_url: Some(image_url@), ..self@ }),
    {
        let mut product = self;
        product.image_url = Some(image_url.to_owned());
        product
    }

    /// The prices of the product, where the service was asked to embed
    /// them.
    pub fn prices(&self) -> (r: Option<&Vec<Price>>)
        ensures
            r.deep_view() == self@.prices,
    {
        let r = self.prices.as_ref();
        proof {
            if self.prices is Some {
                assert(self.prices->Some_0.deep_view() =~= self@.prices->Some_0);
            }
        }
        r
    }

    /// Writes the product as a JSON object. Attributes that are not set
    /// are left out.
    pub fn to_json(&self) -> (r: serde_json::Value)
        ensures
            json_model(r) == self@.to_json(),
        decreases self,
    {
        let mut object = crate::json::object();
        self.base.write_members(&mut object);
        put_text(
            &mut object,
            "tax_category",
            match &self.tax_category {
                Some(category) => Some(category.as_str()),
                None => None,
            },
        );
        put_text(&mut object, "image_url", opt_str(&self.image_url));
        let prices = match &self.prices {
            Some(prices) => {
                let list = Price::list_to_json(prices);
                proof {
                    assert(prices.deep_view() =~= self@.prices->Some_0);
                }
                Some(list)
            },
            None => None,
        };
        put(&mut object, "prices", prices);
        object
    }

    /// Reads a product object.
    pub fn from_json(doc: &serde_json::Value) -> (r: Result<Product, DecodeError>)
        ensures
            match r {
                Ok(product) => ProductView::decode(json_model(*doc)) == Ok::<
                    ProductView,
                    Seq<char>,
                >(product@),
                Err(e) => ProductView::decode(json_model(*doc)) matches Err(name) && e.is_shape(
                    name,
                ),
            },
        decreases json_model(*doc), 0nat,
    {
        let base = EntityBase::from_json(doc)?;
        let tax_category = ProductTaxCategory::read_optional(doc, "tax_category")?;
        let image_url = read_optional_text(doc, "image_url")?;
        let prices = match read_optional_array(doc, "prices")? {
            Some(items) => {
                let list = Price::list_from_json(items, "prices")?;
                proof {
                    assert(list.deep_view() =~= Seq::new(
                        list@.len(),
                        |i: int|
                            if 0 <= i < list@.len() {
                                list@[i].view()
                            } else {
                                arbitrary()
                            },
                    ));
                }
                Some(list)
            },
            None => None,
        };
        Ok(Product { base, tax_category, image_url, prices })
    }

    /// Reads an item of an array of products.
    pub fn item_from_json(item: &serde_json::Value, name: &str) -> (r: Result<
        Product,
        DecodeError,
    >)
        ensures
            match r {
                Ok(product) => ProductView::decode_item(json_model(*item), name@) == Ok::<
                    ProductView,
                    Seq<char>,
                >(product@),
                Err(e) => ProductView::decode_item(json_model(*item), name@) matches Err(at)
                    && e.is_shape(at),
            },
    {
        if crate::json::is_object(item) {
            Product::from_json(item)
        } else {
            Err(shape(name))
        }
    }
}

/// The response to a request for one product: the product as the service
/// holds it, and what the service says about the request.
#[derive(Debug)]
pub struct ProductResponse {
    data: Product,
    meta: Meta,
}

/// What a [`ProductResponse`] holds.
pub ghost struct ProductResponseView {
    pub data: ProductView,
    pub meta: MetaView,
}

impl View for ProductResponse {
    type V = ProductResponseView;

    closed spec fn view(&self) -> ProductResponseView {
        ProductResponseView { data: self.data@, meta: self.meta@ }
    }
}

impl ProductResponseView {
    /// What a product envelope holds: a `data` object with the product and
    /// a `meta` object.
    pub open spec fn decode(doc: Json) -> Result<ProductResponseView, Seq<char>> {
        let data = required_object(doc, "data"@);
        let meta = required_object(doc, "meta"@);
        if data is Err {
            Err(data->Err_0)
        } else if meta is Err {
            Err(meta->Err_0)
        } else {
            match ProductView::decode(data->Ok_0) {
                Err(name) => Err(name),
                Ok(product) => match MetaView::decode(meta->Ok_0) {
                    Err(name) => Err(name),
                    Ok(about) => Ok(ProductResponseView { data: product, meta: about }),
                },
            }
        }
    }
}

impl ProductResponse {
    /// The product.
    pub fn data(&self) -> (r: &Product)
        ensures
            r@ == self@.data,
    {
        &self.data
    }

    /// What the service says about the request.
    pub fn meta(&self) -> (r: &Meta)
        ensures
            r@ == self@.meta,
    {
        &self.meta
    }

    /// The product and the meta block.
    pub fn into_parts(self) -> (r: (Product, Meta))
        ensures
            r.0@ == self@.data,
            r.1@ == self@.meta,
    {
        (self.data, self.meta)
    }

    /// Reads a product envelope.
    pub fn from_json(doc: &serde_json::Value) -> (r: Result<ProductResponse, DecodeError>)
        ensures
            match r {
                Ok(response) => ProductResponseView::decode(json_model(*doc)) == Ok::<
                    ProductResponseView,
                    Seq<char>,
                >(response@),
                Err(e) => ProductResponseView::decode(json_model(*doc)) matches Err(name)
                    && e.is_shape(name),
            },
    {
        let data = read_required_object(doc, "data")?;
        let meta = read_required_object(doc, "meta")?;
        let data = Product::from_json(data)?;
        let meta = Meta::from_json(meta)?;
        Ok(ProductResponse { data, meta })
    }

    /// Reads the response to a request for one product, to the creation of
    /// a product or to a change of one.
    pub fn from_response(status: u16, body: String) -> (r: Result<ProductResponse, ClientError>)
        ensures
            PaddleError::reading(
                status,
                crate::json::json_parse(body@),
                |doc: Json| ProductResponseView::decode(doc),
                match r {
                    Ok(response) => Ok(response@),
                    Err(e) => Err(e),
                },
            ),
    {
        let doc = PaddleError::document(status, body)?;
        match ProductResponse::from_json(&doc) {
            Ok(response) => Ok(response),
            Err(e) => Err(ClientError::Decode(e)),
        }
    }
}

} // verus!
