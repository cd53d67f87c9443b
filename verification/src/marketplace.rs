//! Market-place records: countries, departments, categories, sellers,
//! products, currencies, colors, sizes, manufacturers, shippers, shipping
//! rates, brands, models and login data.
//!
//! Each operation validates its inputs — lengths, well-formed configuration
//! buffers, extracted fields, cross-references into the other stores — in the
//! order its errors are declared, and commits only when every check passes.
//! Checking who signed the call stays with the caller; accounts reach these
//! operations as their raw identifier bytes.

use vstd::prelude::*;

use crate::base58::base58_decoded;
use crate::base58::decode_base58;
use crate::bytes::bytes_eq;
use crate::bytes::clone_bytes;
use crate::bytes::bytes_slice;
use crate::json::get_complex_field;
use crate::json::get_field;
use crate::json::get_record_element;
use crate::json::get_array_element;
use crate::json::is_well_formed;
use crate::json::spec_get_field;
use crate::json::spec_get_complex_field;
use crate::json::spec_get_record_element;
use crate::json::spec_get_array_element;
use crate::json::spec_is_well_formed;
use crate::json::lemma_record_item_scan_bound;
use crate::json::lemma_array_item_scan_bound;
use crate::keys::key_code;
use crate::keys::spec_key_code;
use crate::keys::key_description;
use crate::keys::spec_key_description;
use crate::keys::key_area;
use crate::keys::spec_key_area;
use crate::keys::key_origincountries;
use crate::keys::spec_key_origincountries;
use crate::keys::key_destinationcountries;
use crate::keys::spec_key_destinationcountries;
use crate::keys::key_shipperid;
use crate::keys::spec_key_shipperid;
use crate::keys::key_origincountry;
use crate::keys::spec_key_origincountry;
use crate::keys::key_currency;
use crate::keys::spec_key_currency;
use crate::keys::key_rates;
use crate::keys::spec_key_rates;
use crate::keys::key_destination;
use crate::keys::spec_key_destination;
use crate::keys::key_fromkg;
use crate::keys::spec_key_fromkg;
use crate::keys::key_tokg;
use crate::keys::spec_key_tokg;
use crate::keys::key_rate;
use crate::keys::spec_key_rate;
use crate::keys::key_longdescription;
use crate::keys::spec_key_longdescription;
use crate::keys::key_price;
use crate::keys::spec_key_price;
use crate::keys::key_specifications;
use crate::keys::spec_key_specifications;
use crate::keys::key_media;
use crate::keys::spec_key_media;
use crate::keys::key_filename;
use crate::keys::spec_key_filename;
use crate::keys::key_ipfs;
use crate::keys::spec_key_ipfs;
use crate::keys::key_color;
use crate::keys::spec_key_color;
use crate::keys::key_colors;
use crate::keys::spec_key_colors;
use crate::keys::key_sizes;
use crate::keys::spec_key_sizes;
use crate::keys::key_dimension;
use crate::keys::spec_key_dimension;
use crate::keys::key_upc;
use crate::keys::spec_key_upc;
use crate::keys::key_shippingcountries;
use crate::keys::spec_key_shippingcountries;
use crate::keys::key_shippers;
use crate::keys::spec_key_shippers;
use crate::keys::key_apiavailability;
use crate::keys::spec_key_apiavailability;
use crate::keys::key_language;
use crate::keys::spec_key_language;
use crate::keys::key_sellertype;
use crate::keys::spec_key_sellertype;
use crate::keys::key_address;
use crate::keys::spec_key_address;
use crate::keys::key_zip;
use crate::keys::spec_key_zip;
use crate::keys::key_pobox;
use crate::keys::spec_key_pobox;
use crate::keys::key_city;
use crate::keys::spec_key_city;
use crate::keys::key_websites;
use crate::keys::spec_key_websites;
use crate::keys::key_weburl;
use crate::keys::spec_key_weburl;
use crate::keys::key_socialurls;
use crate::keys::spec_key_socialurls;
use crate::keys::key_socialurl;
use crate::keys::spec_key_socialurl;
use crate::keys::key_certifications;
use crate::keys::spec_key_certifications;
use crate::keys::key_verificationurl;
use crate::keys::spec_key_verificationurl;
use crate::keys::key_emailinfo;
use crate::keys::spec_key_emailinfo;
use crate::keys::key_emailsupport;
use crate::keys::spec_key_emailsupport;
use crate::keys::key_phones;
use crate::keys::spec_key_phones;
use crate::keys::key_phonedescription;
use crate::keys::spec_key_phonedescription;
use crate::keys::key_phonebumber;
use crate::keys::spec_key_phonebumber;
use crate::keys::key_categories;
use crate::keys::spec_key_categories;
use crate::keys::key_department;
use crate::keys::spec_key_department;
use crate::keys::key_countries;
use crate::keys::spec_key_countries;
use crate::keys::key_inout;
use crate::keys::spec_key_inout;
use crate::keys::key_shipmentarea;
use crate::keys::spec_key_shipmentarea;
use crate::keys::key_centerlatitude;
use crate::keys::spec_key_centerlatitude;
use crate::keys::key_centerlongitude;
use crate::keys::spec_key_centerlongitude;
use crate::keys::key_borderlatitude;
use crate::keys::spec_key_borderlatitude;
use crate::keys::key_borderlongitude;
use crate::keys::spec_key_borderlongitude;
use crate::keys::key_defaultlanguage;
use crate::keys::spec_key_defaultlanguage;
use crate::keys::key_defaultunitmeasurement;
use crate::keys::spec_key_defaultunitmeasurement;
use crate::keys::key_defaultreturnpolicy;
use crate::keys::spec_key_defaultreturnpolicy;
use crate::keys::key_selleraccount;
use crate::keys::spec_key_selleraccount;
use crate::keys::key_proxyaccount;
use crate::keys::spec_key_proxyaccount;
use crate::keys::key_name;
use crate::keys::spec_key_name;
use crate::keys::key_website;
use crate::keys::spec_key_website;
use crate::keys::key_manufacturer;
use crate::keys::spec_key_manufacturer;
use crate::keys::key_brand;
use crate::keys::spec_key_brand;
use crate::keys::key_category;
use crate::keys::spec_key_category;
use crate::keys::key_country;
use crate::keys::spec_key_country;
use crate::keys::key_blockchain;
use crate::keys::spec_key_blockchain;
use crate::numbers::spec_vecu8_to_u32;
use crate::numbers::spec_vecu8_to_u128;
use crate::numbers::vecu8_to_u32;
use crate::numbers::vecu8_to_u128;
use crate::store::lemma_eq_matches_view_bytes;
use crate::store::lemma_eq_matches_view_pair;
use crate::store::lemma_eq_matches_view_u64;
use crate::store::KvMap;
use crate::validate::spec_validate_email;
use crate::validate::spec_validate_languagecode;
use crate::validate::spec_validate_phonenumber;
use crate::validate::spec_validate_unitmeasurement;
use crate::validate::spec_validate_weburl;
use crate::validate::validate_email;
use crate::validate::validate_languagecode;
use crate::validate::validate_phonenumber;
use crate::validate::validate_unitmeasurement;
use crate::validate::validate_weburl;

verus! {

/// Account identifiers: the raw identifier bytes.
pub type AccountId = Vec<u8>;

#[derive(Clone, Copy, Debug, PartialEq, Eq, Structural)]
pub enum Error {
    UidCannotBeZero,
    ConfigurationTooShort,
    ConfigurationTooLong,
    InvalidJson,
    DepartmentDescriptionTooShort,
    DepartmentDescriptionTooLong,
    DepartmentUidCannotBeZero,
    DepartmentAlreadyPresent,
    DepartmentNotFound,
    CategoryUidCannotBeZero,
    CategoryDescriptionTooShort,
    CategoryDescriptionTooLong,
    ProductCategoryAlreadyPresent,
    ProductCategoryNotFound,
    WrongLengthCountryCode,
    CountryNameTooShort,
    CountryCodeAlreadyPresent,
    CountryCodeNotFound,
    DialcodeTooShort,
    SellerTypeInvalid,
    SellerNameTooShort,
    SellerCityTooShort,
    SellerCityTooLong,
    SellerAddressTooLong,
    SellerZipCodeTooLong,
    SellerPoBoxTooLong,
    SellerCertificationDescriptionTooShort,
    SellerCertificationDescriptionTooLong,
    SellerCertificateVerificationTooShort,
    SellerCertificateVerificationTooLong,
    SellerInfoEmailIsWrong,
    SellerSupportEmailIsWrong,
    SellerPhoneDescriptionTooShort,
    SellerPhoneDescriptionTooLong,
    SellerPhoneNumberTooShort,
    SellerPhoneNumberTooLong,
    SellerCategoriesMissing,
    SellercountriesMissing,
    IncludedExcludedCountryValueIsMissing,
    ShipmentAreaCenterLatitudeIsMissing,
    ShipmentAreaCenterLongitudeIsMissing,
    ShipmentAreaBorderLatitudeIsMissing,
    ShipmentAreaBorderLongituteIsMissing,
    SellerSocialUrlIsWrong,
    SellerWebsiteUrlIsWrong,
    SellerCertificationUrlIsWrong,
    SellerPhoneNumberIsWrong,
    SellerDataNotFound,
    SellerDefaultLanguageIsWrong,
    SellerDefaultUnitMeasurementIsWrong,
    DefaultReturnPolicyIsExcessive,
    WrongLengthCurrencyCode,
    CurrencyNameTooShort,
    CurrencyNameTooLong,
    CurrencyCategoryIswrong,
    BlockchainNameTooShort,
    BlockchainNameTooLong,
    CurrencyCodeAlreadyPresent,
    CurrencyCodeNotFound,
    ProductDescriptionTooShort,
    ProductDescriptionTooLong,
    ProductLongDescriptionTooShort,
    ProductLongDescriptionTooLong,
    ProductPriceCannotBeZero,
    SpecificationsIsdInvalid,
    MediaCannotBeEmpty,
    MediaDescriptionIswrong,
    MediaFileNameIsWrong,
    MediaIpfsAddressIsWrong,
    ColorUidCannotBeZero,
    ColorDescriptionTooShort,
    ColorDescriptionTooLong,
    ColorAlreadyPresent,
    ColorNotFound,
    SizeUidCannotBeZero,
    SizeInfoTooLong,
    SizeAlreadyPresent,
    SizeNotFound,
    SizeCodeIsMissing,
    SizeDescriptionIsMissing,
    SizeAreaIsMissing,
    ManufacturerUidCannotBeZero,
    ManufacturerNameIsTooShort,
    ManufacturerNameIsTooLong,
    ManufacturerWebsiteIsTooShort,
    ManufacturerWebsiteIsTooLong,
    ManufacturerAlreadyPresent,
    ManufacturerNotFound,
    BrandUidCannotBeZero,
    BrandNameIsTooShort,
    BrandNameIsTooLong,
    BrandAlreadyPresent,
    BrandNotFound,
    ModelUidCannotBeZero,
    ModelNameIsTooShort,
    ModelNameIsTooLong,
    ModelAlreadyPresent,
    ModelNotfound,
    ShipperUidCannotBeZero,
    ShipperNameIsTooShort,
    ShipperNameIsTooLong,
    ShipperWebsiteIsTooShort,
    ShipperWebsiteIsTooLong,
    ShipperAlreadyPresent,
    OriginCountryNotPresent,
    DestinationCountryNotPresent,
    JsonIsTooLong,
    ShipperNotFound,
    ShippingRateUidCannotBeZero,
    ShipperIdIsMissing,
    FromKgIsMissing,
    ToKgIsMissing,
    ShippingRateCannotbeZero,
    ShippingRatesNotFound,
    DimensionWrongLength,
    DimensionWrongWide,
    DimensionWrongHeight,
    DimensionWrongWeight,
    UniversalProductCodeIsWrong,
    CenterLatitudeIsMissing,
    CenterLongitudeIsMissing,
    BorderLatitudeIsMissing,
    BorderLongitudeIsMissing,
    InvalidApiUrl,
    LanguageCodeIsWrong,
    WrongLengthEmailHash,
    WrongLengthEncryptedPassword,
    EmailHashAlreadyPresent,
    EmailHashNotFound,
    SignerIsNotAuthorized,
}

#[derive(Debug, PartialEq, Eq)]
pub enum Event {
    MarketPlaceIsoCountryCreated(Vec<u8>, Vec<u8>),
    MarketPlaceIsoCountryDestroyed(Vec<u8>),
    MarketPlaceDepartmentCreated(u32, Vec<u8>),
    MarketPlaceDepartmentDestroyed(u32),
    MarketPlaceCategoryCreated(u32, u32, Vec<u8>),
    MarketPlaceCategoryDestroyed(u32, u32),
    MarketPlaceSellerCreated(Vec<u8>, Vec<u8>),
    MarketPlaceSellerDestroyed(Vec<u8>),
    MarketPlaceProductUpdated(u32, Vec<u8>),
    MarketPlaceIsoDialCodeCreated(Vec<u8>, Vec<u8>),
    MarketPlaceIsoDialCodeDestroyed(Vec<u8>),
    MarketPlaceCurrencyCodeCreated(Vec<u8>, Vec<u8>),
    MarketPlaceCurrencyDestroyed(Vec<u8>),
    MarketPlaceColorCreated(u32, Vec<u8>),
    MarketPlaceColorDestroyed(u32),
    MarketPlaceSizeCreated(u32, Vec<u8>),
    MarketPlaceSizeDestroyed(u32),
    MarketPlaceLoginDataCreated(Vec<u8>, Vec<u8>, Vec<u8>),
    MarketPlaceLoginDataDestroyed(Vec<u8>),
    MarketPlaceLoginPwdChanged(Vec<u8>, Vec<u8>),
    MarketPlaceManufacturerCreated(u32, Vec<u8>),
    MarketPlaceManufacturerDestroyed(u32),
    MarketPlaceShipperCreated(u32, Vec<u8>),
    MarketPlaceShipperDestroyed(u32),
    MarketShippingRateCreated(u32, Vec<u8>),
    MarketShippingRateDestroyed(u32),
    MarketPlaceBrandCreated(u32, Vec<u8>),
    MarketPlaceBrandDestroyed(u32),
    MarketPlaceProductModelCreated(u32, Vec<u8>),
    MarketPlaceProductModelDestroyed(u32),
}

/// The abstract state: every store as a map, and the event log.
#[verifier::ext_equal]
pub struct State {
    pub sellers: Map<Seq<u8>, Seq<u8>>,
    pub iso_countries: Map<Seq<u8>, Seq<u8>>,
    pub product_departments: Map<u64, Seq<u8>>,
    pub product_categories: Map<(u64, u64), Seq<u8>>,
    pub currencies: Map<Seq<u8>, Seq<u8>>,
    pub product_colors: Map<u64, Seq<u8>>,
    pub product_sizes: Map<u64, Seq<u8>>,
    pub products: Map<u64, Seq<u8>>,
    pub shippers: Map<u64, Seq<u8>>,
    pub shipping_rates: Map<u64, Seq<u8>>,
    pub iso_dialcode: Map<Seq<u8>, Seq<u8>>,
    pub login_data: Map<Seq<u8>, Seq<u8>>,
    pub email_account: Map<Seq<u8>, Seq<u8>>,
    pub email_encrypted_seed: Map<Seq<u8>, Seq<u8>>,
    pub product_models: Map<u64, Seq<u8>>,
    pub brands: Map<u64, Seq<u8>>,
    pub manufacturers: Map<u64, Seq<u8>>,
    pub events: Seq<Event>,
}

/// The market-place records and the events they have emitted.
pub struct Pallet {
    sellers: KvMap<Vec<u8>, Vec<u8>>,
    iso_countries: KvMap<Vec<u8>, Vec<u8>>,
    product_departments: KvMap<u64, Vec<u8>>,
    product_categories: KvMap<(u64, u64), Vec<u8>>,
    currencies: KvMap<Vec<u8>, Vec<u8>>,
    product_colors: KvMap<u64, Vec<u8>>,
    product_sizes: KvMap<u64, Vec<u8>>,
    products: KvMap<u64, Vec<u8>>,
    shippers: KvMap<u64, Vec<u8>>,
    shipping_rates: KvMap<u64, Vec<u8>>,
    iso_dialcode: KvMap<Vec<u8>, Vec<u8>>,
    login_data: KvMap<Vec<u8>, Vec<u8>>,
    email_account: KvMap<Vec<u8>, Vec<u8>>,
    email_encrypted_seed: KvMap<Vec<u8>, Vec<u8>>,
    product_models: KvMap<u64, Vec<u8>>,
    brands: KvMap<u64, Vec<u8>>,
    manufacturers: KvMap<u64, Vec<u8>>,
    events: Vec<Event>,
}

impl View for Pallet {
    type V = State;

    closed spec fn view(&self) -> State {
        State {
            sellers: self.sellers@,
            iso_countries: self.iso_countries@,
            product_departments: self.product_departments@,
            product_categories: self.product_categories@,
            currencies: self.currencies@,
            product_colors: self.product_colors@,
            product_sizes: self.product_sizes@,
            products: self.products@,
            shippers: self.shippers@,
            shipping_rates: self.shipping_rates@,
            iso_dialcode: self.iso_dialcode@,
            login_data: self.login_data@,
            email_account: self.email_account@,
            email_encrypted_seed: self.email_encrypted_seed@,
            product_models: self.product_models@,
            brands: self.brands@,
            manufacturers: self.manufacturers@,
            events: self.events@,
        }
    }
}

impl Pallet {
    pub closed spec fn wf(&self) -> bool {
        &&& self.sellers.wf()
        &&& !self.shippers@.contains_key(0)
        &&& self.iso_countries.wf()
        &&& self.product_departments.wf()
        &&& self.product_categories.wf()
        &&& self.currencies.wf()
        &&& self.product_colors.wf()
        &&& self.product_sizes.wf()
        &&& self.products.wf()
        &&& self.shippers.wf()
        &&& self.shipping_rates.wf()
        &&& self.iso_dialcode.wf()
        &&& self.login_data.wf()
        &&& self.email_account.wf()
        &&& self.email_encrypted_seed.wf()
        &&& self.product_models.wf()
        &&& self.brands.wf()
        &&& self.manufacturers.wf()
    }

    pub fn new() -> (r: Pallet)
        ensures
            r.wf(),
            r@.sellers == Map::<Seq<u8>, Seq<u8>>::empty(),
            r@.iso_countries == Map::<Seq<u8>, Seq<u8>>::empty(),
            r@.product_departments == Map::<u64, Seq<u8>>::empty(),
            r@.product_categories == Map::<(u64, u64), Seq<u8>>::empty(),
            r@.currencies == Map::<Seq<u8>, Seq<u8>>::empty(),
            r@.product_colors == Map::<u64, Seq<u8>>::empty(),
            r@.product_sizes == Map::<u64, Seq<u8>>::empty(),
            r@.products == Map::<u64, Seq<u8>>::empty(),
            r@.shippers == Map::<u64, Seq<u8>>::empty(),
            r@.shipping_rates == Map::<u64, Seq<u8>>::empty(),
            r@.iso_dialcode == Map::<Seq<u8>, Seq<u8>>::empty(),
            r@.login_data == Map::<Seq<u8>, Seq<u8>>::empty(),
            r@.email_account == Map::<Seq<u8>, Seq<u8>>::empty(),
            r@.email_encrypted_seed == Map::<Seq<u8>, Seq<u8>>::empty(),
            r@.product_models == Map::<u64, Seq<u8>>::empty(),
            r@.brands == Map::<u64, Seq<u8>>::empty(),
            r@.manufacturers == Map::<u64, Seq<u8>>::empty(),
            r@.events == Seq::<Event>::empty(),
    {
        Pallet {
            sellers: KvMap::new(),
            iso_countries: KvMap::new(),
            product_departments: KvMap::new(),
            product_categories: KvMap::new(),
            currencies: KvMap::new(),
            product_colors: KvMap::new(),
            product_sizes: KvMap::new(),
            products: KvMap::new(),
            shippers: KvMap::new(),
            shipping_rates: KvMap::new(),
            iso_dialcode: KvMap::new(),
            login_data: KvMap::new(),
            email_account: KvMap::new(),
            email_encrypted_seed: KvMap::new(),
            product_models: KvMap::new(),
            brands: KvMap::new(),
            manufacturers: KvMap::new(),
            events: Vec::new(),
        }
    }

    /// The most recent event, if any.
    pub fn last_event(&self) -> (r: Option<&Event>)
        ensures
            match r {
                Some(e) => self@.events.len() > 0 && *e == self@.events.last(),
                None => self@.events.len() == 0,
            },
    {
        if self.events.len() == 0 {
            None
        } else {
            Some(&self.events[self.events.len() - 1])
        }
    }

    /// Outcome of `create_iso_country`.
    pub open spec fn create_iso_country_outcome(
        s: State,
        countrycode: Seq<u8>,
        countryname: Seq<u8>,
    ) -> Result<(), Error> {
        if countrycode.len() != 2 {
            Err(Error::WrongLengthCountryCode)
        } else if countryname.len() < 3 {
            Err(Error::CountryNameTooShort)
        } else if s.iso_countries.contains_key(countrycode) {
            Err(Error::CountryCodeAlreadyPresent)
        } else {
            Ok(())
        }
    }

    /// Create an ISO country code with its name.
    pub fn create_iso_country(&mut self, countrycode: Vec<u8>, countryname: Vec<u8>) -> (r: Result<
        (),
        Error,
    >)
        requires
            old(self).wf(),
        ensures
            final(self).wf(),
            r == Self::create_iso_country_outcome(old(self)@, countrycode@, countryname@),
            r is Ok ==> final(self)@ == (State {
                iso_countries: old(self)@.iso_countries.insert(countrycode@, countryname@),
                events: old(self)@.events.push(
                    Event::MarketPlaceIsoCountryCreated(countrycode, countryname),
                ),
                ..old(self)@
            }),
            r is Err ==> *final(self) == *old(self),
    {
        proof {
            lemma_eq_matches_view_bytes();
        }
        if countrycode.len() != 2 {
            return Err(Error::WrongLengthCountryCode);
        }
        if countryname.len() < 3 {
            return Err(Error::CountryNameTooShort);
        }
        if self.iso_countries.contains_key(&countrycode) {
            return Err(Error::CountryCodeAlreadyPresent);
        }
        let code = clone_bytes(&countrycode);
        let name = clone_bytes(&countryname);
        self.iso_countries.insert(code, name);
        self.events.push(Event::MarketPlaceIsoCountryCreated(countrycode, countryname));
        proof {
            assert(self@ =~= (State {
                iso_countries: old(self)@.iso_countries.insert(countrycode@, countryname@),
                events: self@.events,
                ..old(self)@
            }));
        }
        Ok(())
    }

    /// Outcome of `destroy_iso_country`.
    pub open spec fn destroy_iso_country_outcome(s: State, countrycode: Seq<u8>) -> Result<
        (),
        Error,
    > {
        if !s.iso_countries.contains_key(countrycode) {
            Err(Error::CountryCodeNotFound)
        } else {
            Ok(())
        }
    }

    /// Destroy an ISO country code.
    pub fn destroy_iso_country(&mut self, countrycode: Vec<u8>) -> (r: Result<(), Error>)
        requires
            old(self).wf(),
        ensures
            final(self).wf(),
            r == Self::destroy_iso_country_outcome(old(self)@, countrycode@),
            r is Ok ==> final(self)@ == (State {
                iso_countries: old(self)@.iso_countries.remove(countrycode@),
                events: old(self)@.events.push(Event::MarketPlaceIsoCountryDestroyed(countrycode)),
                ..old(self)@
            }),
            r is Err ==> *final(self) == *old(self),
    {
        proof {
            lemma_eq_matches_view_bytes();
        }
        if !self.iso_countries.contains_key(&countrycode) {
            return Err(Error::CountryCodeNotFound);
        }
        self.iso_countries.remove(&countrycode);
        self.events.push(Event::MarketPlaceIsoCountryDestroyed(countrycode));
        proof {
            assert(self@ =~= (State {
                iso_countries: old(self)@.iso_countries.remove(countrycode@),
                events: self@.events,
                ..old(self)@
            }));
        }
        Ok(())
    }

    /// Outcome of `create_product_department`.
    pub open spec fn create_product_department_outcome(
        s: State,
        uid: u32,
        description: Seq<u8>,
    ) -> Result<(), Error> {
        if uid == 0 {
            Err(Error::DepartmentUidCannotBeZero)
        } else if description.len() <= 3 {
            Err(Error::DepartmentDescriptionTooShort)
        } else if description.len() >= 128 {
            Err(Error::DepartmentDescriptionTooLong)
        } else if s.product_departments.contains_key(uid as u64) {
            Err(Error::DepartmentAlreadyPresent)
        } else {
            Ok(())
        }
    }

    /// Create a product department.
    pub fn create_product_department(&mut self, uid: u32, description: Vec<u8>) -> (r: Result<
        (),
        Error,
    >)
        requires
            old(self).wf(),
        ensures
            final(self).wf(),
            r == Self::create_product_department_outcome(old(self)@, uid, description@),
            r is Ok ==> final(self)@ == (State {
                product_departments: old(self)@.product_departments.insert(
                    uid as u64,
                    description@,
                ),
                events: old(self)@.events.push(
                    Event::MarketPlaceDepartmentCreated(uid, description),
                ),
                ..old(self)@
            }),
            r is Err ==> *final(self) == *old(self),
    {
        proof {
            lemma_eq_matches_view_u64();
        }
        if uid == 0 {
            return Err(Error::DepartmentUidCannotBeZero);
        }
        if description.len() <= 3 {
            return Err(Error::DepartmentDescriptionTooShort);
        }
        if description.len() >= 128 {
            return Err(Error::DepartmentDescriptionTooLong);
        }
        if self.product_departments.contains_key(&(uid as u64)) {
            return Err(Error::DepartmentAlreadyPresent);
        }
        let stored = clone_bytes(&description);
        self.product_departments.insert(uid as u64, stored);
        self.events.push(Event::MarketPlaceDepartmentCreated(uid, description));
        proof {
            assert(self@ =~= (State {
                product_departments: old(self)@.product_departments.insert(
                    uid as u64,
                    description@,
                ),
                events: self@.events,
                ..old(self)@
            }));
        }
        Ok(())
    }

    /// Outcome of `destroy_product_department`.
    pub open spec fn destroy_product_department_outcome(s: State, uid: u32) -> Result<(), Error> {
        if !s.product_departments.contains_key(uid as u64) {
            Err(Error::DepartmentNotFound)
        } else {
            Ok(())
        }
    }

    /// Destroy a product department.
    pub fn destroy_product_department(&mut self, uid: u32) -> (r: Result<(), Error>)
        requires
            old(self).wf(),
        ensures
            final(self).wf(),
            r == Self::destroy_product_department_outcome(old(self)@, uid),
            r is Ok ==> final(self)@ == (State {
                product_departments: old(self)@.product_departments.remove(uid as u64),
                events: old(self)@.events.push(Event::MarketPlaceDepartmentDestroyed(uid)),
                ..old(self)@
            }),
            r is Err ==> *final(self) == *old(self),
    {
        proof {
            lemma_eq_matches_view_u64();
        }
        if !self.product_departments.contains_key(&(uid as u64)) {
            return Err(Error::DepartmentNotFound);
        }
        self.product_departments.remove(&(uid as u64));
        self.events.push(Event::MarketPlaceDepartmentDestroyed(uid));
        proof {
            assert(self@ =~= (State {
                product_departments: old(self)@.product_departments.remove(uid as u64),
                events: self@.events,
                ..old(self)@
            }));
        }
        Ok(())
    }

    /// Outcome of `create_product_category`.
    pub open spec fn create_product_category_outcome(
        s: State,
        uiddepartment: u32,
        uidcategory: u32,
        description: Seq<u8>,
    ) -> Result<(), Error> {
        if uiddepartment == 0 {
            Err(Error::DepartmentUidCannotBeZero)
        } else if uidcategory == 0 {
            Err(Error::CategoryUidCannotBeZero)
        } else if description.len() <= 3 {
            Err(Error::CategoryDescriptionTooShort)
        } else if description.len() >= 128 {
            Err(Error::CategoryDescriptionTooLong)
        } else if !s.product_departments.contains_key(uiddepartment as u64) {
            Err(Error::DepartmentNotFound)
        } else if s.product_categories.contains_key((uiddepartment as u64, uidcategory as u64)) {
            Err(Error::ProductCategoryAlreadyPresent)
        } else {
            Ok(())
        }
    }

    /// Create a product category under an existing department.
    pub fn create_product_category(
        &mut self,
        uiddepartment: u32,
        uidcategory: u32,
        description: Vec<u8>,
    ) -> (r: Result<(), Error>)
        requires
            old(self).wf(),
        ensures
            final(self).wf(),
            r == Self::create_product_category_outcome(
                old(self)@,
                uiddepartment,
                uidcategory,
                description@,
            ),
            r is Ok ==> final(self)@ == (State {
                product_categories: old(self)@.product_categories.insert(
                    (uiddepartment as u64, uidcategory as u64),
                    description@,
                ),
                events: old(self)@.events.push(
                    Event::MarketPlaceCategoryCreated(uiddepartment, uidcategory, description),
                ),
                ..old(self)@
            }),
            r is Err ==> *final(self) == *old(self),
    {
        proof {
            lemma_eq_matches_view_u64();
            lemma_eq_matches_view_pair();
        }
        if uiddepartment == 0 {
            return Err(Error::DepartmentUidCannotBeZero);
        }
        if uidcategory == 0 {
            return Err(Error::CategoryUidCannotBeZero);
        }
        if description.len() <= 3 {
            return Err(Error::CategoryDescriptionTooShort);
        }
        if description.len() >= 128 {
            return Err(Error::CategoryDescriptionTooLong);
        }
        if !self.product_departments.contains_key(&(uiddepartment as u64)) {
            return Err(Error::DepartmentNotFound);
        }
        if self.product_categories.contains_key(&(uiddepartment as u64, uidcategory as u64)) {
            return Err(Error::ProductCategoryAlreadyPresent);
        }
        let stored = clone_bytes(&description);
        self.product_categories.insert((uiddepartment as u64, uidcategory as u64), stored);
        self.events.push(
            Event::MarketPlaceCategoryCreated(uiddepartment, uidcategory, description),
        );
        proof {
            assert(self@ =~= (State {
                product_categories: old(self)@.product_categories.insert(
                    (uiddepartment as u64, uidcategory as u64),
                    description@,
                ),
                events: self@.events,
                ..old(self)@
            }));
        }
        Ok(())
    }

    /// Outcome of `destroy_product_category`.
    pub open spec fn destroy_product_category_outcome(
        s: State,
        uiddepartment: u32,
        uidcategory: u32,
    ) -> Result<(), Error> {
        if !s.product_categories.contains_key((uiddepartment as u64, uidcategory as u64)) {
            Err(Error::ProductCategoryNotFound)
        } else {
            Ok(())
        }
    }

    /// Destroy a product category.
    pub fn destroy_product_category(&mut self, uiddepartment: u32, uidcategory: u32) -> (r: Result<
        (),
        Error,
    >)
        requires
            old(self).wf(),
        ensures
            final(self).wf(),
            r == Self::destroy_product_category_outcome(old(self)@, uiddepartment, uidcategory),
            r is Ok ==> final(self)@ == (State {
                product_categories: old(self)@.product_categories.remove(
                    (uiddepartment as u64, uidcategory as u64),
                ),
                events: old(self)@.events.push(
                    Event::MarketPlaceCategoryDestroyed(uiddepartment, uidcategory),
                ),
                ..old(self)@
            }),
            r is Err ==> *final(self) == *old(self),
    {
        proof {
            lemma_eq_matches_view_pair();
        }
        if !self.product_categories.contains_key(&(uiddepartment as u64, uidcategory as u64)) {
            return Err(Error::ProductCategoryNotFound);
        }
        self.product_categories.remove(&(uiddepartment as u64, uidcategory as u64));
        self.events.push(Event::MarketPlaceCategoryDestroyed(uiddepartment, uidcategory));
        proof {
            assert(self@ =~= (State {
                product_categories: old(self)@.product_categories.remove(
                    (uiddepartment as u64, uidcategory as u64),
                ),
                events: self@.events,
                ..old(self)@
            }));
        }
        Ok(())
    }

    /// Outcome of `create_dialcode_country`.
    pub open spec fn create_dialcode_country_outcome(
        s: State,
        countrycode: Seq<u8>,
        dialcode: Seq<u8>,
    ) -> Result<(), Error> {
        if countrycode.len() != 2 {
            Err(Error::WrongLengthCountryCode)
        } else if dialcode.len() < 2 {
            Err(Error::DialcodeTooShort)
        } else if s.iso_dialcode.contains_key(countrycode) {
            Err(Error::CountryCodeAlreadyPresent)
        } else {
            Ok(())
        }
    }

    /// Create an international dial code for a country.
    pub fn create_dialcode_country(&mut self, countrycode: Vec<u8>, dialcode: Vec<u8>) -> (r:
        Result<(), Error>)
        requires
            old(self).wf(),
        ensures
            final(self).wf(),
            r == Self::create_dialcode_country_outcome(old(self)@, countrycode@, dialcode@),
            r is Ok ==> final(self)@ == (State {
                iso_dialcode: old(self)@.iso_dialcode.insert(countrycode@, dialcode@),
                events: old(self)@.events.push(
                    Event::MarketPlaceIsoDialCodeCreated(countrycode, dialcode),
                ),
                ..old(self)@
            }),
            r is Err ==> *final(self) == *old(self),
    {
        proof {
            lemma_eq_matches_view_bytes();
        }
        if countrycode.len() != 2 {
            return Err(Error::WrongLengthCountryCode);
        }
        if dialcode.len() < 2 {
            return Err(Error::DialcodeTooShort);
        }
        if self.iso_dialcode.contains_key(&countrycode) {
            return Err(Error::CountryCodeAlreadyPresent);
        }
        let code = clone_bytes(&countrycode);
        let dial = clone_bytes(&dialcode);
        self.iso_dialcode.insert(code, dial);
        self.events.push(Event::MarketPlaceIsoDialCodeCreated(countrycode, dialcode));
        proof {
            assert(self@ =~= (State {
                iso_dialcode: old(self)@.iso_dialcode.insert(countrycode@, dialcode@),
                events: self@.events,
                ..old(self)@
            }));
        }
        Ok(())
    }

    /// Outcome of `destroy_dialcode_country`.
    pub open spec fn destroy_dialcode_country_outcome(s: State, countrycode: Seq<u8>) -> Result<
        (),
        Error,
    > {
        if !s.iso_dialcode.contains_key(countrycode) {
            Err(Error::CountryCodeNotFound)
        } else {
            Ok(())
        }
    }

    /// Destroy a country's dial code.
    pub fn destroy_dialcode_country(&mut self, countrycode: Vec<u8>) -> (r: Result<(), Error>)
        requires
            old(self).wf(),
        ensures
            final(self).wf(),
            r == Self::destroy_dialcode_country_outcome(old(self)@, countrycode@),
            r is Ok ==> final(self)@ == (State {
                iso_dialcode: old(self)@.iso_dialcode.remove(countrycode@),
                events: old(self)@.events.push(
                    Event::MarketPlaceIsoDialCodeDestroyed(countrycode),
                ),
                ..old(self)@
            }),
            r is Err ==> *final(self) == *old(self),
    {
        proof {
            lemma_eq_matches_view_bytes();
        }
        if !self.iso_dialcode.contains_key(&countrycode) {
            return Err(Error::CountryCodeNotFound);
        }
        self.iso_dialcode.remove(&countrycode);
        self.events.push(Event::MarketPlaceIsoDialCodeDestroyed(countrycode));
        proof {
            assert(self@ =~= (State {
                iso_dialcode: old(self)@.iso_dialcode.remove(countrycode@),
                events: self@.events,
                ..old(self)@
            }));
        }
        Ok(())
    }

    /// Outcome of `destroy_product_color`.
    pub open spec fn destroy_product_color_outcome(s: State, uid: u32) -> Result<(), Error> {
        if !s.product_colors.contains_key(uid as u64) {
            Err(Error::ColorNotFound)
        } else {
            Ok(())
        }
    }

    /// Destroy a product color.
    pub fn destroy_product_color(&mut self, uid: u32) -> (r: Result<(), Error>)
        requires
            old(self).wf(),
        ensures
            final(self).wf(),
            r == Self::destroy_product_color_outcome(old(self)@, uid),
            r is Ok ==> final(self)@ == (State {
                product_colors: old(self)@.product_colors.remove(uid as u64),
                events: old(self)@.events.push(Event::MarketPlaceColorDestroyed(uid)),
                ..old(self)@
            }),
            r is Err ==> *final(self) == *old(self),
    {
        proof {
            lemma_eq_matches_view_u64();
        }
        if !self.product_colors.contains_key(&(uid as u64)) {
            return Err(Error::ColorNotFound);
        }
        self.product_colors.remove(&(uid as u64));
        self.events.push(Event::MarketPlaceColorDestroyed(uid));
        proof {
            assert(self@ =~= (State {
                product_colors: old(self)@.product_colors.remove(uid as u64),
                events: self@.events,
                ..old(self)@
            }));
        }
        Ok(())
    }

    /// Outcome of `destroy_product_size`.
    pub open spec fn destroy_product_size_outcome(s: State, uid: u32) -> Result<(), Error> {
        if !s.product_sizes.contains_key(uid as u64) {
            Err(Error::SizeNotFound)
        } else {
            Ok(())
        }
    }

    /// Destroy a product size table.
    pub fn destroy_product_size(&mut self, uid: u32) -> (r: Result<(), Error>)
        requires
            old(self).wf(),
        ensures
            final(self).wf(),
            r == Self::destroy_product_size_outcome(old(self)@, uid),
            r is Ok ==> final(self)@ == (State {
                product_sizes: old(self)@.product_sizes.remove(uid as u64),
                events: old(self)@.events.push(Event::MarketPlaceSizeDestroyed(uid)),
                ..old(self)@
            }),
            r is Err ==> *final(self) == *old(self),
    {
        proof {
            lemma_eq_matches_view_u64();
        }
        if !self.product_sizes.contains_key(&(uid as u64)) {
            return Err(Error::SizeNotFound);
        }
        self.product_sizes.remove(&(uid as u64));
        self.events.push(Event::MarketPlaceSizeDestroyed(uid));
        proof {
            assert(self@ =~= (State {
                product_sizes: old(self)@.product_sizes.remove(uid as u64),
                events: self@.events,
                ..old(self)@
            }));
        }
        Ok(())
    }

    /// Outcome of `destroy_manufacturer`.
    pub open spec fn destroy_manufacturer_outcome(s: State, uid: u32) -> Result<(), Error> {
        if !s.manufacturers.contains_key(uid as u64) {
            Err(Error::ManufacturerNotFound)
        } else {
            Ok(())
        }
    }

    /// Destroy a manufacturer.
    pub fn destroy_manufacturer(&mut self, uid: u32) -> (r: Result<(), Error>)
        requires
            old(self).wf(),
        ensures
            final(self).wf(),
            r == Self::destroy_manufacturer_outcome(old(self)@, uid),
            r is Ok ==> final(self)@ == (State {
                manufacturers: old(self)@.manufacturers.remove(uid as u64),
                events: old(self)@.events.push(Event::MarketPlaceManufacturerDestroyed(uid)),
                ..old(self)@
            }),
            r is Err ==> *final(self) == *old(self),
    {
        proof {
            lemma_eq_matches_view_u64();
        }
        if !self.manufacturers.contains_key(&(uid as u64)) {
            return Err(Error::ManufacturerNotFound);
        }
        self.manufacturers.remove(&(uid as u64));
        self.events.push(Event::MarketPlaceManufacturerDestroyed(uid));
        proof {
            assert(self@ =~= (State {
                manufacturers: old(self)@.manufacturers.remove(uid as u64),
                events: self@.events,
                ..old(self)@
            }));
        }
        Ok(())
    }

    /// Outcome of `destroy_brand`.
    pub open spec fn destroy_brand_outcome(s: State, uid: u32) -> Result<(), Error> {
        if !s.brands.contains_key(uid as u64) {
            Err(Error::BrandNotFound)
        } else {
            Ok(())
        }
    }

    /// Destroy a brand.
    pub fn destroy_brand(&mut self, uid: u32) -> (r: Result<(), Error>)
        requires
            old(self).wf(),
        ensures
            final(self).wf(),
            r == Self::destroy_brand_outcome(old(self)@, uid),
            r is Ok ==> final(self)@ == (State {
                brands: old(self)@.brands.remove(uid as u64),
                events: old(self)@.events.push(Event::MarketPlaceBrandDestroyed(uid)),
                ..old(self)@
            }),
            r is Err ==> *final(self) == *old(self),
    {
        proof {
            lemma_eq_matches_view_u64();
        }
        if !self.brands.contains_key(&(uid as u64)) {
            return Err(Error::BrandNotFound);
        }
        self.brands.remove(&(uid as u64));
        self.events.push(Event::MarketPlaceBrandDestroyed(uid));
        proof {
            assert(self@ =~= (State {
                brands: old(self)@.brands.remove(uid as u64),
                events: self@.events,
                ..old(self)@
            }));
        }
        Ok(())
    }

    /// Outcome of `destroy_product_model`.
    pub open spec fn destroy_product_model_outcome(s: State, uid: u32) -> Result<(), Error> {
        if !s.product_models.contains_key(uid as u64) {
            Err(Error::BrandNotFound)
        } else {
            Ok(())
        }
    }

    /// Destroy a product model. A missing model reports `BrandNotFound`,
    /// the classification its callers key on.
    pub fn destroy_product_model(&mut self, uid: u32) -> (r: Result<(), Error>)
        requires
            old(self).wf(),
        ensures
            final(self).wf(),
            r == Self::destroy_product_model_outcome(old(self)@, uid),
            r is Ok ==> final(self)@ == (State {
                product_models: old(self)@.product_models.remove(uid as u64),
                events: old(self)@.events.push(Event::MarketPlaceProductModelDestroyed(uid)),
                ..old(self)@
            }),
            r is Err ==> *final(self) == *old(self),
    {
        proof {
            lemma_eq_matches_view_u64();
        }
        if !self.product_models.contains_key(&(uid as u64)) {
            return Err(Error::BrandNotFound);
        }
        self.product_models.remove(&(uid as u64));
        self.events.push(Event::MarketPlaceProductModelDestroyed(uid));
        proof {
            assert(self@ =~= (State {
                product_models: old(self)@.product_models.remove(uid as u64),
                events: self@.events,
                ..old(self)@
            }));
        }
        Ok(())
    }

    /// Outcome of `destroy_shipper`.
    pub open spec fn destroy_shipper_outcome(s: State, uid: u32) -> Result<(), Error> {
        if !s.shippers.contains_key(uid as u64) {
            Err(Error::ShipperNotFound)
        } else {
            Ok(())
        }
    }

    /// Destroy a shipper.
    pub fn destroy_shipper(&mut self, uid: u32) -> (r: Result<(), Error>)
        requires
            old(self).wf(),
        ensures
            final(self).wf(),
            r == Self::destroy_shipper_outcome(old(self)@, uid),
            r is Ok ==> final(self)@ == (State {
                shippers: old(self)@.shippers.remove(uid as u64),
                events: old(self)@.events.push(Event::MarketPlaceShipperDestroyed(uid)),
                ..old(self)@
            }),
            r is Err ==> *final(self) == *old(self),
    {
        proof {
            lemma_eq_matches_view_u64();
        }
        if !self.shippers.contains_key(&(uid as u64)) {
            return Err(Error::ShipperNotFound);
        }
        self.shippers.remove(&(uid as u64));
        self.events.push(Event::MarketPlaceShipperDestroyed(uid));
        proof {
            assert(self@ =~= (State {
                shippers: old(self)@.shippers.remove(uid as u64),
                events: self@.events,
                ..old(self)@
            }));
        }
        Ok(())
    }

    /// Outcome of `destroy_shipping_rates`.
    pub open spec fn destroy_shipping_rates_outcome(s: State, uid: u32) -> Result<(), Error> {
        if !s.shipping_rates.contains_key(uid as u64) {
            Err(Error::ShippingRatesNotFound)
        } else {
            Ok(())
        }
    }

    /// Destroy shipping rates. The existence check is on the shipping-rates
    /// store while the removal and the event touch the shippers store; the
    /// contract states exactly that.
    pub fn destroy_shipping_rates(&mut self, uid: u32) -> (r: Result<(), Error>)
        requires
            old(self).wf(),
        ensures
            final(self).wf(),
            r == Self::destroy_shipping_rates_outcome(old(self)@, uid),
            r is Ok ==> final(self)@ == (State {
                shippers: old(self)@.shippers.remove(uid as u64),
                events: old(self)@.events.push(Event::MarketPlaceShipperDestroyed(uid)),
                ..old(self)@
            }),
            r is Err ==> *final(self) == *old(self),
    {
        proof {
            lemma_eq_matches_view_u64();
        }
        if !self.shipping_rates.contains_key(&(uid as u64)) {
            return Err(Error::ShippingRatesNotFound);
        }
        self.shippers.remove(&(uid as u64));
        self.events.push(Event::MarketPlaceShipperDestroyed(uid));
        proof {
            assert(self@ =~= (State {
                shippers: old(self)@.shippers.remove(uid as u64),
                events: self@.events,
                ..old(self)@
            }));
        }
        Ok(())
    }

    /// Outcome of `destroy_currency`.
    pub open spec fn destroy_currency_outcome(s: State, currencycode: Seq<u8>) -> Result<
        (),
        Error,
    > {
        if !s.currencies.contains_key(currencycode) {
            Err(Error::CurrencyCodeNotFound)
        } else {
            Ok(())
        }
    }

    /// Destroy a currency.
    pub fn destroy_currency(&mut self, currencycode: Vec<u8>) -> (r: Result<(), Error>)
        requires
            old(self).wf(),
        ensures
            final(self).wf(),
            r == Self::destroy_currency_outcome(old(self)@, currencycode@),
            r is Ok ==> final(self)@ == (State {
                currencies: old(self)@.currencies.remove(currencycode@),
                events: old(self)@.events.push(Event::MarketPlaceCurrencyDestroyed(currencycode)),
                ..old(self)@
            }),
            r is Err ==> *final(self) == *old(self),
    {
        proof {
            lemma_eq_matches_view_bytes();
        }
        if !self.currencies.contains_key(&currencycode) {
            return Err(Error::CurrencyCodeNotFound);
        }
        self.currencies.remove(&currencycode);
        self.events.push(Event::MarketPlaceCurrencyDestroyed(currencycode));
        proof {
            assert(self@ =~= (State {
                currencies: old(self)@.currencies.remove(currencycode@),
                events: self@.events,
                ..old(self)@
            }));
        }
        Ok(())
    }

    /// Outcome of `destroy_seller`.
    pub open spec fn destroy_seller_outcome(s: State, sender: Seq<u8>) -> Result<(), Error> {
        if !s.sellers.contains_key(sender) {
            Err(Error::SellerDataNotFound)
        } else {
            Ok(())
        }
    }

    /// Destroy the sender's seller record.
    pub fn destroy_seller(&mut self, sender: AccountId) -> (r: Result<(), Error>)
        requires
            old(self).wf(),
        ensures
            final(self).wf(),
            r == Self::destroy_seller_outcome(old(self)@, sender@),
            r is Ok ==> final(self)@ == (State {
                sellers: old(self)@.sellers.remove(sender@),
                events: old(self)@.events.push(Event::MarketPlaceSellerDestroyed(sender)),
                ..old(self)@
            }),
            r is Err ==> *final(self) == *old(self),
    {
        proof {
            lemma_eq_matches_view_bytes();
        }
        if !self.sellers.contains_key(&sender) {
            return Err(Error::SellerDataNotFound);
        }
        self.sellers.remove(&sender);
        self.events.push(Event::MarketPlaceSellerDestroyed(sender));
        proof {
            assert(self@ =~= (State {
                sellers: old(self)@.sellers.remove(sender@),
                events: self@.events,
                ..old(self)@
            }));
        }
        Ok(())
    }

    /// Outcome of `create_product_color`.
    pub open spec fn create_product_color_outcome(
        s: State,
        uid: u32,
        description: Seq<u8>,
    ) -> Result<(), Error> {
        if uid == 0 {
            Err(Error::ColorUidCannotBeZero)
        } else if description.len() < 2 {
            Err(Error::ColorDescriptionTooShort)
        } else if description.len() >= 32 {
            Err(Error::ColorDescriptionTooLong)
        } else if s.product_colors.contains_key(uid as u64) {
            Err(Error::ColorAlreadyPresent)
        } else {
            Ok(())
        }
    }

    /// Create a product color.
    pub fn create_product_color(&mut self, uid: u32, description: Vec<u8>) -> (r: Result<
        (),
        Error,
    >)
        requires
            old(self).wf(),
        ensures
            final(self).wf(),
            r == Self::create_product_color_outcome(old(self)@, uid, description@),
            r is Ok ==> final(self)@ == (State {
                product_colors: old(self)@.product_colors.insert(uid as u64, description@),
                events: old(self)@.events.push(Event::MarketPlaceColorCreated(uid, description)),
                ..old(self)@
            }),
            r is Err ==> *final(self) == *old(self),
    {
        proof {
            lemma_eq_matches_view_u64();
        }
        if uid == 0 {
            return Err(Error::ColorUidCannotBeZero);
        }
        if description.len() < 2 {
            return Err(Error::ColorDescriptionTooShort);
        }
        if description.len() >= 32 {
            return Err(Error::ColorDescriptionTooLong);
        }
        if self.product_colors.contains_key(&(uid as u64)) {
            return Err(Error::ColorAlreadyPresent);
        }
        let stored = clone_bytes(&description);
        self.product_colors.insert(uid as u64, stored);
        self.events.push(Event::MarketPlaceColorCreated(uid, description));
        proof {
            assert(self@ =~= (State {
                product_colors: old(self)@.product_colors.insert(uid as u64, description@),
                events: self@.events,
                ..old(self)@
            }));
        }
        Ok(())
    }

    /// Outcome of `create_manufacturer`.
    pub open spec fn create_manufacturer_outcome(s: State, uid: u32, info: Seq<u8>) -> Result<
        (),
        Error,
    > {
        let name = spec_get_field(info, spec_key_name());
        let website = spec_get_field(info, spec_key_website());
        if uid == 0 {
            Err(Error::ManufacturerUidCannotBeZero)
        } else if !spec_is_well_formed(info) {
            Err(Error::InvalidJson)
        } else if name.len() < 4 {
            Err(Error::ManufacturerNameIsTooShort)
        } else if name.len() > 64 {
            Err(Error::ManufacturerNameIsTooLong)
        } else if website.len() < 4 {
            Err(Error::ManufacturerWebsiteIsTooShort)
        } else if website.len() > 64 {
            Err(Error::ManufacturerWebsiteIsTooLong)
        } else if s.manufacturers.contains_key(uid as u64) {
            Err(Error::ManufacturerAlreadyPresent)
        } else {
            Ok(())
        }
    }

    /// Create a manufacturer from a configuration buffer with `name` and
    /// `website` fields.
    pub fn create_manufacturer(&mut self, uid: u32, info: Vec<u8>) -> (r: Result<(), Error>)
        requires
            old(self).wf(),
        ensures
            final(self).wf(),
            r == Self::create_manufacturer_outcome(old(self)@, uid, info@),
            r is Ok ==> final(self)@ == (State {
                manufacturers: old(self)@.manufacturers.insert(uid as u64, info@),
                events: old(self)@.events.push(Event::MarketPlaceManufacturerCreated(uid, info)),
                ..old(self)@
            }),
            r is Err ==> *final(self) == *old(self),
    {
        proof {
            lemma_eq_matches_view_u64();
        }
        if uid == 0 {
            return Err(Error::ManufacturerUidCannotBeZero);
        }
        if !is_well_formed(&info) {
            return Err(Error::InvalidJson);
        }
        let name = get_field(&info, &key_name());
        if name.len() < 4 {
            return Err(Error::ManufacturerNameIsTooShort);
        }
        if name.len() > 64 {
            return Err(Error::ManufacturerNameIsTooLong);
        }
        let website = get_field(&info, &key_website());
        if website.len() < 4 {
            return Err(Error::ManufacturerWebsiteIsTooShort);
        }
        if website.len() > 64 {
            return Err(Error::ManufacturerWebsiteIsTooLong);
        }
        if self.manufacturers.contains_key(&(uid as u64)) {
            return Err(Error::ManufacturerAlreadyPresent);
        }
        let stored = clone_bytes(&info);
        self.manufacturers.insert(uid as u64, stored);
        self.events.push(Event::MarketPlaceManufacturerCreated(uid, info));
        proof {
            assert(self@ =~= (State {
                manufacturers: old(self)@.manufacturers.insert(uid as u64, info@),
                events: self@.events,
                ..old(self)@
            }));
        }
        Ok(())
    }

    /// Outcome of `create_brand`.
    pub open spec fn create_brand_outcome(s: State, uid: u32, info: Seq<u8>) -> Result<(), Error> {
        let name = spec_get_field(info, spec_key_name());
        let mv = spec_vecu8_to_u32(spec_get_field(info, spec_key_manufacturer()));
        if uid == 0 {
            Err(Error::BrandUidCannotBeZero)
        } else if info.len() > 1024 {
            Err(Error::JsonIsTooLong)
        } else if !spec_is_well_formed(info) {
            Err(Error::InvalidJson)
        } else if name.len() < 4 {
            Err(Error::BrandNameIsTooShort)
        } else if name.len() > 64 {
            Err(Error::BrandNameIsTooLong)
        } else if mv == 0 {
            Err(Error::ManufacturerNotFound)
        } else if !s.manufacturers.contains_key(mv as u64) {
            Err(Error::ManufacturerNotFound)
        } else if s.brands.contains_key(uid as u64) {
            Err(Error::BrandAlreadyPresent)
        } else {
            Ok(())
        }
    }

    /// Create a brand from a configuration buffer with a `name` and the
    /// identifier of an existing `manufacturer`.
    pub fn create_brand(&mut self, uid: u32, info: Vec<u8>) -> (r: Result<(), Error>)
        requires
            old(self).wf(),
        ensures
            final(self).wf(),
            r == Self::create_brand_outcome(old(self)@, uid, info@),
            r is Ok ==> final(self)@ == (State {
                brands: old(self)@.brands.insert(uid as u64, info@),
                events: old(self)@.events.push(Event::MarketPlaceBrandCreated(uid, info)),
                ..old(self)@
            }),
            r is Err ==> *final(self) == *old(self),
    {
        proof {
            lemma_eq_matches_view_u64();
        }
        if uid == 0 {
            return Err(Error::BrandUidCannotBeZero);
        }
        if info.len() > 1024 {
            return Err(Error::JsonIsTooLong);
        }
        if !is_well_formed(&info) {
            return Err(Error::InvalidJson);
        }
        let name = get_field(&info, &key_name());
        if name.len() < 4 {
            return Err(Error::BrandNameIsTooShort);
        }
        if name.len() > 64 {
            return Err(Error::BrandNameIsTooLong);
        }
        let manufacturer = get_field(&info, &key_manufacturer());
        let mv = vecu8_to_u32(&manufacturer);
        if mv == 0 {
            return Err(Error::ManufacturerNotFound);
        }
        if !self.manufacturers.contains_key(&(mv as u64)) {
            return Err(Error::ManufacturerNotFound);
        }
        if self.brands.contains_key(&(uid as u64)) {
            return Err(Error::BrandAlreadyPresent);
        }
        let stored = clone_bytes(&info);
        self.brands.insert(uid as u64, stored);
        self.events.push(Event::MarketPlaceBrandCreated(uid, info));
        proof {
            assert(self@ =~= (State {
                brands: old(self)@.brands.insert(uid as u64, info@),
                events: self@.events,
                ..old(self)@
            }));
        }
        Ok(())
    }

    /// Outcome of `create_product_model`.
    pub open spec fn create_product_model_outcome(s: State, uid: u32, info: Seq<u8>) -> Result<
        (),
        Error,
    > {
        let name = spec_get_field(info, spec_key_name());
        let bv = spec_vecu8_to_u32(spec_get_field(info, spec_key_brand()));
        if uid == 0 {
            Err(Error::ModelUidCannotBeZero)
        } else if !spec_is_well_formed(info) {
            Err(Error::InvalidJson)
        } else if name.len() < 2 {
            Err(Error::ModelNameIsTooShort)
        } else if name.len() > 32 {
            Err(Error::ModelNameIsTooLong)
        } else if bv == 0 {
            Err(Error::BrandNotFound)
        } else if !s.brands.contains_key(bv as u64) {
            Err(Error::BrandNotFound)
        } else if s.product_models.contains_key(uid as u64) {
            Err(Error::ModelAlreadyPresent)
        } else {
            Ok(())
        }
    }

    /// Create a product model from a configuration buffer with a `name` and
    /// the identifier of an existing `brand`.
    pub fn create_product_model(&mut self, uid: u32, info: Vec<u8>) -> (r: Result<(), Error>)
        requires
            old(self).wf(),
        ensures
            final(self).wf(),
            r == Self::create_product_model_outcome(old(self)@, uid, info@),
            r is Ok ==> final(self)@ == (State {
                product_models: old(self)@.product_models.insert(uid as u64, info@),
                events: old(self)@.events.push(Event::MarketPlaceProductModelCreated(uid, info)),
                ..old(self)@
            }),
            r is Err ==> *final(self) == *old(self),
    {
        proof {
            lemma_eq_matches_view_u64();
        }
        if uid == 0 {
            return Err(Error::ModelUidCannotBeZero);
        }
        if !is_well_formed(&info) {
            return Err(Error::InvalidJson);
        }
        let name = get_field(&info, &key_name());
        if name.len() < 2 {
            return Err(Error::ModelNameIsTooShort);
        }
        if name.len() > 32 {
            return Err(Error::ModelNameIsTooLong);
        }
        let brand = get_field(&info, &key_brand());
        let bv = vecu8_to_u32(&brand);
        if bv == 0 {
            return Err(Error::BrandNotFound);
        }
        if !self.brands.contains_key(&(bv as u64)) {
            return Err(Error::BrandNotFound);
        }
        if self.product_models.contains_key(&(uid as u64)) {
            return Err(Error::ModelAlreadyPresent);
        }
        let stored = clone_bytes(&info);
        self.product_models.insert(uid as u64, stored);
        self.events.push(Event::MarketPlaceProductModelCreated(uid, info));
        proof {
            assert(self@ =~= (State {
                product_models: old(self)@.product_models.insert(uid as u64, info@),
                events: self@.events,
                ..old(self)@
            }));
        }
        Ok(())
    }

    /// Outcome of `create_currency`.
    pub open spec fn create_currency_outcome(
        s: State,
        currencycode: Seq<u8>,
        info: Seq<u8>,
    ) -> Result<(), Error> {
        let name = spec_get_field(info, spec_key_name());
        let category = spec_get_field(info, spec_key_category());
        let country = spec_get_field(info, spec_key_country());
        let blockchain = spec_get_field(info, spec_key_blockchain());
        if currencycode.len() < 3 || currencycode.len() > 5 {
            Err(Error::WrongLengthCurrencyCode)
        } else if info.len() > 1024 {
            Err(Error::SizeInfoTooLong)
        } else if !spec_is_well_formed(info) {
            Err(Error::InvalidJson)
        } else if name.len() < 3 {
            Err(Error::CurrencyNameTooShort)
        } else if name.len() > 32 {
            Err(Error::CurrencyNameTooLong)
        } else if category != seq![99u8] && category != seq![102u8] {
            Err(Error::CurrencyCategoryIswrong)
        } else if category == seq![102u8] && !s.iso_countries.contains_key(country) {
            Err(Error::CountryCodeNotFound)
        } else if category == seq![99u8] && blockchain.len() < 3 {
            Err(Error::BlockchainNameTooShort)
        } else if category == seq![99u8] && blockchain.len() > 32 {
            Err(Error::BlockchainNameTooLong)
        } else if s.currencies.contains_key(currencycode) {
            Err(Error::CurrencyCodeAlreadyPresent)
        } else {
            Ok(())
        }
    }

    /// Create a currency: category `c` (crypto, with a `blockchain` name) or
    /// `f` (fiat, with an existing `country` code).
    pub fn create_currency(&mut self, currencycode: Vec<u8>, info: Vec<u8>) -> (r: Result<
        (),
        Error,
    >)
        requires
            old(self).wf(),
        ensures
            final(self).wf(),
            r == Self::create_currency_outcome(old(self)@, currencycode@, info@),
            r is Ok ==> final(self)@ == (State {
                currencies: old(self)@.currencies.insert(currencycode@, info@),
                events: old(self)@.events.push(
                    Event::MarketPlaceCurrencyCodeCreated(currencycode, info),
                ),
                ..old(self)@
            }),
            r is Err ==> *final(self) == *old(self),
    {
        proof {
            lemma_eq_matches_view_bytes();
        }
        if currencycode.len() < 3 || currencycode.len() > 5 {
            return Err(Error::WrongLengthCurrencyCode);
        }
        if info.len() > 1024 {
            return Err(Error::SizeInfoTooLong);
        }
        if !is_well_formed(&info) {
            return Err(Error::InvalidJson);
        }
        let name = get_field(&info, &key_name());
        if name.len() < 3 {
            return Err(Error::CurrencyNameTooShort);
        }
        if name.len() > 32 {
            return Err(Error::CurrencyNameTooLong);
        }
        let category = get_field(&info, &key_category());
        let crypto: Vec<u8> = vec![99u8];
        let fiat: Vec<u8> = vec![102u8];
        let is_crypto = bytes_eq(&category, &crypto);
        let is_fiat = bytes_eq(&category, &fiat);
        proof {
            assert(crypto@ =~= seq![99u8]);
            assert(fiat@ =~= seq![102u8]);
        }
        if !is_crypto && !is_fiat {
            return Err(Error::CurrencyCategoryIswrong);
        }
        if is_fiat {
            let country = get_field(&info, &key_country());
            if !self.iso_countries.contains_key(&country) {
                return Err(Error::CountryCodeNotFound);
            }
        }
        if is_crypto {
            let blockchain = get_field(&info, &key_blockchain());
            if blockchain.len() < 3 {
                return Err(Error::BlockchainNameTooShort);
            }
            if blockchain.len() > 32 {
                return Err(Error::BlockchainNameTooLong);
            }
        }
        if self.currencies.contains_key(&currencycode) {
            return Err(Error::CurrencyCodeAlreadyPresent);
        }
        let code = clone_bytes(&currencycode);
        let stored = clone_bytes(&info);
        self.currencies.insert(code, stored);
        self.events.push(Event::MarketPlaceCurrencyCodeCreated(currencycode, info));
        proof {
            assert(self@ =~= (State {
                currencies: old(self)@.currencies.insert(currencycode@, info@),
                events: self@.events,
                ..old(self)@
            }));
        }
        Ok(())
    }

    /// Outcome of `create_login_data`.
    pub open spec fn create_login_data_outcome(
        s: State,
        emailhash: Seq<u8>,
        encryptedpwdhash: Seq<u8>,
    ) -> Result<(), Error> {
        if emailhash.len() <= 8 {
            Err(Error::WrongLengthEmailHash)
        } else if encryptedpwdhash.len() <= 8 {
            Err(Error::WrongLengthEncryptedPassword)
        } else if s.login_data.contains_key(emailhash) {
            Err(Error::EmailHashAlreadyPresent)
        } else {
            Ok(())
        }
    }

    /// Store login data: the password hash, the account and the encrypted
    /// seed, all keyed by the email hash.
    pub fn create_login_data(
        &mut self,
        emailhash: Vec<u8>,
        encryptedpwdhash: Vec<u8>,
        accountid: AccountId,
        encryptedseed: Vec<u8>,
    ) -> (r: Result<(), Error>)
        requires
            old(self).wf(),
        ensures
            final(self).wf(),
            r == Self::create_login_data_outcome(old(self)@, emailhash@, encryptedpwdhash@),
            r is Ok ==> final(self)@ == (State {
                login_data: old(self)@.login_data.insert(emailhash@, encryptedpwdhash@),
                email_account: old(self)@.email_account.insert(emailhash@, accountid@),
                email_encrypted_seed: old(self)@.email_encrypted_seed.insert(
                    emailhash@,
                    encryptedseed@,
                ),
                events: old(self)@.events.push(
                    Event::MarketPlaceLoginDataCreated(emailhash, encryptedpwdhash, accountid),
                ),
                ..old(self)@
            }),
            r is Err ==> *final(self) == *old(self),
    {
        proof {
            lemma_eq_matches_view_bytes();
        }
        if emailhash.len() <= 8 {
            return Err(Error::WrongLengthEmailHash);
        }
        if encryptedpwdhash.len() <= 8 {
            return Err(Error::WrongLengthEncryptedPassword);
        }
        if self.login_data.contains_key(&emailhash) {
            return Err(Error::EmailHashAlreadyPresent);
        }
        let key1 = clone_bytes(&emailhash);
        let key2 = clone_bytes(&emailhash);
        let key3 = clone_bytes(&emailhash);
        let pwd = clone_bytes(&encryptedpwdhash);
        let account = clone_bytes(&accountid);
        self.login_data.insert(key1, pwd);
        self.email_account.insert(key2, account);
        self.email_encrypted_seed.insert(key3, encryptedseed);
        self.events.push(
            Event::MarketPlaceLoginDataCreated(emailhash, encryptedpwdhash, accountid),
        );
        proof {
            assert(self@ =~= (State {
                login_data: old(self)@.login_data.insert(emailhash@, encryptedpwdhash@),
                email_account: old(self)@.email_account.insert(emailhash@, accountid@),
                email_encrypted_seed: old(self)@.email_encrypted_seed.insert(
                    emailhash@,
                    encryptedseed@,
                ),
                events: self@.events,
                ..old(self)@
            }));
        }
        Ok(())
    }

    /// Outcome of `change_pwd_login_data`.
    pub open spec fn change_pwd_login_data_outcome(
        s: State,
        sender: Seq<u8>,
        emailhash: Seq<u8>,
        encryptedpwdhash: Seq<u8>,
    ) -> Result<(), Error> {
        if emailhash.len() <= 8 {
            Err(Error::WrongLengthEmailHash)
        } else if encryptedpwdhash.len() <= 8 {
            Err(Error::WrongLengthEncryptedPassword)
        } else if !s.login_data.contains_key(emailhash) {
            Err(Error::EmailHashNotFound)
        } else if !s.email_account.contains_key(emailhash) {
            Err(Error::EmailHashNotFound)
        } else if s.email_account[emailhash] != sender {
            Err(Error::SignerIsNotAuthorized)
        } else {
            Ok(())
        }
    }

    /// Change the stored password hash; only the account that created the
    /// login data may.
    pub fn change_pwd_login_data(
        &mut self,
        sender: AccountId,
        emailhash: Vec<u8>,
        encryptedpwdhash: Vec<u8>,
    ) -> (r: Result<(), Error>)
        requires
            old(self).wf(),
        ensures
            final(self).wf(),
            r == Self::change_pwd_login_data_outcome(
                old(self)@,
                sender@,
                emailhash@,
                encryptedpwdhash@,
            ),
            r is Ok ==> final(self)@ == (State {
                login_data: old(self)@.login_data.insert(emailhash@, encryptedpwdhash@),
                events: old(self)@.events.push(
                    Event::MarketPlaceLoginPwdChanged(emailhash, encryptedpwdhash),
                ),
                ..old(self)@
            }),
            r is Err ==> *final(self) == *old(self),
    {
        proof {
            lemma_eq_matches_view_bytes();
        }
        if emailhash.len() <= 8 {
            return Err(Error::WrongLengthEmailHash);
        }
        if encryptedpwdhash.len() <= 8 {
            return Err(Error::WrongLengthEncryptedPassword);
        }
        if !self.login_data.contains_key(&emailhash) {
            return Err(Error::EmailHashNotFound);
        }
        let authorized = match self.email_account.get(&emailhash) {
            Some(account) => bytes_eq(account, &sender),
            None => {
                return Err(Error::EmailHashNotFound);
            },
        };
        if !authorized {
            return Err(Error::SignerIsNotAuthorized);
        }
        let key = clone_bytes(&emailhash);
        let pwd = clone_bytes(&encryptedpwdhash);
        self.login_data.remove(&emailhash);
        self.login_data.insert(key, pwd);
        self.events.push(Event::MarketPlaceLoginPwdChanged(emailhash, encryptedpwdhash));
        proof {
            assert(old(self)@.login_data.remove(emailhash@).insert(emailhash@, encryptedpwdhash@)
                =~= old(self)@.login_data.insert(emailhash@, encryptedpwdhash@));
            assert(self@ =~= (State {
                login_data: old(self)@.login_data.insert(emailhash@, encryptedpwdhash@),
                events: self@.events,
                ..old(self)@
            }));
        }
        Ok(())
    }

    /// Outcome of `destroy_login_data`.
    pub open spec fn destroy_login_data_outcome(
        s: State,
        sender: Seq<u8>,
        emailhash: Seq<u8>,
    ) -> Result<(), Error> {
        if !s.login_data.contains_key(emailhash) {
            Err(Error::EmailHashNotFound)
        } else if !s.email_account.contains_key(emailhash) {
            Err(Error::EmailHashNotFound)
        } else if s.email_account[emailhash] != sender {
            Err(Error::SignerIsNotAuthorized)
        } else {
            Ok(())
        }
    }

    /// Remove login data; only the account that created it may.
    pub fn destroy_login_data(&mut self, sender: AccountId, emailhash: Vec<u8>) -> (r: Result<
        (),
        Error,
    >)
        requires
            old(self).wf(),
        ensures
            final(self).wf(),
            r == Self::destroy_login_data_outcome(old(self)@, sender@, emailhash@),
            r is Ok ==> final(self)@ == (State {
                login_data: old(self)@.login_data.remove(emailhash@),
                email_account: old(self)@.email_account.remove(emailhash@),
                email_encrypted_seed: old(self)@.email_encrypted_seed.remove(emailhash@),
                events: old(self)@.events.push(Event::MarketPlaceLoginDataDestroyed(emailhash)),
                ..old(self)@
            }),
            r is Err ==> *final(self) == *old(self),
    {
        proof {
            lemma_eq_matches_view_bytes();
        }
        if !self.login_data.contains_key(&emailhash) {
            return Err(Error::EmailHashNotFound);
        }
        let authorized = match self.email_account.get(&emailhash) {
            Some(account) => bytes_eq(account, &sender),
            None => {
                return Err(Error::EmailHashNotFound);
            },
        };
        if !authorized {
            return Err(Error::SignerIsNotAuthorized);
        }
        self.login_data.remove(&emailhash);
        self.email_account.remove(&emailhash);
        self.email_encrypted_seed.remove(&emailhash);
        self.events.push(Event::MarketPlaceLoginDataDestroyed(emailhash));
        proof {
            assert(self@ =~= (State {
                login_data: old(self)@.login_data.remove(emailhash@),
                email_account: old(self)@.email_account.remove(emailhash@),
                email_encrypted_seed: old(self)@.email_encrypted_seed.remove(emailhash@),
                events: self@.events,
                ..old(self)@
            }));
        }
        Ok(())
    }

    /// Check over the records of a size table: the `code`, `description`
    /// and `area` fields are read from the whole buffer, once per record,
    /// not from the record itself.
    pub open spec fn size_records_check(info: Seq<u8>, x: int) -> Result<(), Error>
        decreases info.len() - x,
    {
        if !(0 <= x < info.len()) {
            Ok(())
        } else if spec_get_record_element(info, x).len() == 0 {
            Ok(())
        } else if spec_get_field(info, spec_key_code()).len() == 0 {
            Err(Error::SizeCodeIsMissing)
        } else if spec_get_field(info, spec_key_description()).len() == 0 {
            Err(Error::SizeDescriptionIsMissing)
        } else if spec_get_field(info, spec_key_area()).len() == 0 {
            Err(Error::SizeAreaIsMissing)
        } else {
            Self::size_records_check(info, x + 1)
        }
    }

    /// Outcome of `create_product_size`.
    pub open spec fn create_product_size_outcome(s: State, uid: u32, info: Seq<u8>) -> Result<
        (),
        Error,
    > {
        if uid == 0 {
            Err(Error::SizeUidCannotBeZero)
        } else if info.len() >= 8192 {
            Err(Error::SizeInfoTooLong)
        } else if !spec_is_well_formed(info) {
            Err(Error::InvalidJson)
        } else if Self::size_records_check(info, 0) is Err {
            Self::size_records_check(info, 0)
        } else if s.product_sizes.contains_key(uid as u64) {
            Err(Error::SizeAlreadyPresent)
        } else {
            Ok(())
        }
    }

    /// Create a product size table from a configuration buffer whose records
    /// carry `code`, `description` and `area` fields.
    pub fn create_product_size(&mut self, uid: u32, info: Vec<u8>) -> (r: Result<(), Error>)
        requires
            old(self).wf(),
        ensures
            final(self).wf(),
            r == Self::create_product_size_outcome(old(self)@, uid, info@),
            r is Ok ==> final(self)@ == (State {
                product_sizes: old(self)@.product_sizes.insert(uid as u64, info@),
                events: old(self)@.events.push(Event::MarketPlaceSizeCreated(uid, info)),
                ..old(self)@
            }),
            r is Err ==> *final(self) == *old(self),
    {
        proof {
            lemma_eq_matches_view_u64();
        }
        if uid == 0 {
            return Err(Error::SizeUidCannotBeZero);
        }
        if info.len() >= 8192 {
            return Err(Error::SizeInfoTooLong);
        }
        if !is_well_formed(&info) {
            return Err(Error::InvalidJson);
        }
        let mut x: usize = 0;
        loop
            invariant
                old(self).wf(),
                *self == *old(self),
                uid != 0,
                info@.len() < 8192,
                spec_is_well_formed(info@),
                0 <= x <= info@.len(),
                Self::size_records_check(info@, 0) == Self::size_records_check(info@, x as int),
            ensures
                Self::size_records_check(info@, 0) is Ok,
                *self == *old(self),
            decreases info@.len() - x,
        {
            let sz = get_record_element(&info, x);
            if sz.len() == 0 {
                break ;
            }
            proof {
                lemma_record_item_scan_bound(info@, 0, 0, x as int, true, crate::json::SPACE);
            }
            let code = get_field(&info, &key_code());
            if code.len() == 0 {
                return Err(Error::SizeCodeIsMissing);
            }
            let description = get_field(&info, &key_description());
            if description.len() == 0 {
                return Err(Error::SizeDescriptionIsMissing);
            }
            let area = get_field(&info, &key_area());
            if area.len() == 0 {
                return Err(Error::SizeAreaIsMissing);
            }
            x = x + 1;
        }
        if self.product_sizes.contains_key(&(uid as u64)) {
            return Err(Error::SizeAlreadyPresent);
        }
        let stored = clone_bytes(&info);
        self.product_sizes.insert(uid as u64, stored);
        self.events.push(Event::MarketPlaceSizeCreated(uid, info));
        proof {
            assert(self@ =~= (State {
                product_sizes: old(self)@.product_sizes.insert(uid as u64, info@),
                events: self@.events,
                ..old(self)@
            }));
        }
        Ok(())
    }

    /// Check that every element of a country-code array names a stored ISO
    /// country, reporting `err` at the first that does not.
    pub open spec fn countries_array_check(s: State, ar: Seq<u8>, x: int, err: Error) -> Result<
        (),
        Error,
    >
        decreases ar.len() - x,
    {
        if !(0 <= x < ar.len()) {
            Ok(())
        } else if spec_get_array_element(ar, x).len() == 0 {
            Ok(())
        } else if !s.iso_countries.contains_key(spec_get_array_element(ar, x)) {
            Err(err)
        } else {
            Self::countries_array_check(s, ar, x + 1, err)
        }
    }


    /// Walk a country-code array and report `err` at the first element that
    /// does not name a stored ISO country.
    fn check_countries_array(&self, ar: &Vec<u8>, err: Error) -> (r: Result<(), Error>)
        requires
            self.wf(),
        ensures
            r == Self::countries_array_check(self@, ar@, 0, err),
    {
        proof {
            lemma_eq_matches_view_bytes();
        }
        let n = ar.len();
        let mut x: usize = 0;
        loop
            invariant
                self.wf(),
                n == ar@.len(),
                0 <= x <= ar@.len(),
                Self::countries_array_check(self@, ar@, 0, err) == Self::countries_array_check(
                    self@,
                    ar@,
                    x as int,
                    err,
                ),
                crate::store::eq_matches_view::<Vec<u8>>(),
            ensures
                Self::countries_array_check(self@, ar@, 0, err) == Ok::<(), Error>(()),
            decreases ar@.len() - x,
        {
            let oc = get_array_element(ar, x);
            if oc.len() == 0 {
                break ;
            }
            proof {
                lemma_array_item_scan_bound(ar@, 0, 0, x as int, true, crate::json::SPACE);
            }
            if !self.iso_countries.contains_key(&oc) {
                return Err(err);
            }
            x = x + 1;
        }
        Ok(())
    }

    /// Walk the records of a rate table and report the first failing check.
    fn check_rates_records(&self, rates: &Vec<u8>) -> (r: Result<(), Error>)
        requires
            self.wf(),
        ensures
            r == Self::rates_records_check(self@, rates@, 0),
    {
        proof {
            lemma_eq_matches_view_bytes();
        }
        let n = rates.len();
        let mut x: usize = 0;
        loop
            invariant
                self.wf(),
                n == rates@.len(),
                0 <= x <= rates@.len(),
                Self::rates_records_check(self@, rates@, 0) == Self::rates_records_check(
                    self@,
                    rates@,
                    x as int,
                ),
                crate::store::eq_matches_view::<Vec<u8>>(),
            ensures
                Self::rates_records_check(self@, rates@, 0) == Ok::<(), Error>(()),
            decreases rates@.len() - x,
        {
            let rec = get_record_element(rates, x);
            if rec.len() == 0 {
                break ;
            }
            proof {
                lemma_record_item_scan_bound(rates@, 0, 0, x as int, true, crate::json::SPACE);
            }
            let dc = get_field(&rec, &key_destination());
            if !self.iso_countries.contains_key(&dc) {
                return Err(Error::OriginCountryNotPresent);
            }
            let fromkg = get_field(&rec, &key_fromkg());
            if fromkg.len() == 0 {
                return Err(Error::FromKgIsMissing);
            }
            let tokg = get_field(&rec, &key_tokg());
            if tokg.len() == 0 {
                return Err(Error::ToKgIsMissing);
            }
            let rate_field = get_field(&rec, &key_rate());
            let ratev = vecu8_to_u32(&rate_field);
            if ratev == 0 {
                return Err(Error::ShippingRateCannotbeZero);
            }
            x = x + 1;
        }
        Ok(())
    }

    /// Outcome of `create_shipper`.
    pub open spec fn create_shipper_outcome(s: State, uid: u32, info: Seq<u8>) -> Result<
        (),
        Error,
    > {
        let name = spec_get_field(info, spec_key_name());
        let website = spec_get_field(info, spec_key_website());
        let origincountries = spec_get_complex_field(info, spec_key_origincountries());
        let destinationcountries = spec_get_complex_field(info, spec_key_destinationcountries());
        if uid == 0 {
            Err(Error::ShipperUidCannotBeZero)
        } else if !spec_is_well_formed(info) {
            Err(Error::InvalidJson)
        } else if info.len() > 16384 {
            Err(Error::InvalidJson)
        } else if name.len() < 3 {
            Err(Error::ShipperNameIsTooShort)
        } else if name.len() > 64 {
            Err(Error::ShipperNameIsTooLong)
        } else if info.len() > 32768 {
            Err(Error::JsonIsTooLong)
        } else if website.len() < 4 {
            Err(Error::ShipperWebsiteIsTooShort)
        } else if website.len() > 64 {
            Err(Error::ShipperWebsiteIsTooLong)
        } else if s.shippers.contains_key(uid as u64) {
            Err(Error::ShipperAlreadyPresent)
        } else if Self::countries_array_check(
            s,
            origincountries,
            0,
            Error::OriginCountryNotPresent,
        ) is Err {
            Self::countries_array_check(s, origincountries, 0, Error::OriginCountryNotPresent)
        } else if Self::countries_array_check(
            s,
            destinationcountries,
            0,
            Error::DestinationCountryNotPresent,
        ) is Err {
            Self::countries_array_check(
                s,
                destinationcountries,
                0,
                Error::DestinationCountryNotPresent,
            )
        } else {
            Ok(())
        }
    }

    /// Create a shipper from a configuration buffer with `name`, `website`
    /// and optional `origincountries` / `destinationcountries` arrays whose
    /// entries must name stored ISO countries.
    pub fn create_shipper(&mut self, uid: u32, info: Vec<u8>) -> (r: Result<(), Error>)
        requires
            old(self).wf(),
        ensures
            final(self).wf(),
            r == Self::create_shipper_outcome(old(self)@, uid, info@),
            r is Ok ==> final(self)@ == (State {
                shippers: old(self)@.shippers.insert(uid as u64, info@),
                events: old(self)@.events.push(Event::MarketPlaceShipperCreated(uid, info)),
                ..old(self)@
            }),
            r is Err ==> *final(self) == *old(self),
    {
        proof {
            lemma_eq_matches_view_u64();
            lemma_eq_matches_view_bytes();
        }
        if uid == 0 {
            return Err(Error::ShipperUidCannotBeZero);
        }
        if !is_well_formed(&info) {
            return Err(Error::InvalidJson);
        }
        if info.len() > 16384 {
            return Err(Error::InvalidJson);
        }
        let name = get_field(&info, &key_name());
        if name.len() < 3 {
            return Err(Error::ShipperNameIsTooShort);
        }
        if name.len() > 64 {
            return Err(Error::ShipperNameIsTooLong);
        }
        if info.len() > 32768 {
            return Err(Error::JsonIsTooLong);
        }
        let website = get_field(&info, &key_website());
        if website.len() < 4 {
            return Err(Error::ShipperWebsiteIsTooShort);
        }
        if website.len() > 64 {
            return Err(Error::ShipperWebsiteIsTooLong);
        }
        if self.shippers.contains_key(&(uid as u64)) {
            return Err(Error::ShipperAlreadyPresent);
        }
        let origincountries = get_complex_field(&info, &key_origincountries());
        if origincountries.len() > 0 {
            let checked = self.check_countries_array(
                &origincountries,
                Error::OriginCountryNotPresent,
            );
            if let Err(e) = checked {
                return Err(e);
            }
        }
        let destinationcountries = get_complex_field(&info, &key_destinationcountries());
        if destinationcountries.len() > 0 {
            let checked = self.check_countries_array(
                &destinationcountries,
                Error::DestinationCountryNotPresent,
            );
            if let Err(e) = checked {
                return Err(e);
            }
        }
        let stored = clone_bytes(&info);
        self.shippers.insert(uid as u64, stored);
        self.events.push(Event::MarketPlaceShipperCreated(uid, info));
        proof {
            assert(self@ =~= (State {
                shippers: old(self)@.shippers.insert(uid as u64, info@),
                events: self@.events,
                ..old(self)@
            }));
        }
        Ok(())
    }

    /// Check over the records of a rate table: each must name a stored
    /// destination country, carry `fromkg` and `tokg` fields, and a nonzero
    /// `rate`.
    pub open spec fn rates_records_check(s: State, rates: Seq<u8>, x: int) -> Result<(), Error>
        decreases rates.len() - x,
    {
        if !(0 <= x < rates.len()) {
            Ok(())
        } else {
            let rec = spec_get_record_element(rates, x);
            if rec.len() == 0 {
                Ok(())
            } else if !s.iso_countries.contains_key(
                spec_get_field(rec, spec_key_destination()),
            ) {
                Err(Error::OriginCountryNotPresent)
            } else if spec_get_field(rec, spec_key_fromkg()).len() == 0 {
                Err(Error::FromKgIsMissing)
            } else if spec_get_field(rec, spec_key_tokg()).len() == 0 {
                Err(Error::ToKgIsMissing)
            } else if spec_vecu8_to_u32(spec_get_field(rec, spec_key_rate())) == 0 {
                Err(Error::ShippingRateCannotbeZero)
            } else {
                Self::rates_records_check(s, rates, x + 1)
            }
        }
    }

    /// Outcome of `create_shipping_rates`.
    pub open spec fn create_shipping_rates_outcome(s: State, uid: u32, info: Seq<u8>) -> Result<
        (),
        Error,
    > {
        let shipperid = spec_vecu8_to_u32(spec_get_field(info, spec_key_shipperid()));
        let origincountry = spec_get_field(info, spec_key_origincountry());
        let currency = spec_get_field(info, spec_key_currency());
        let rates = spec_get_complex_field(info, spec_key_rates());
        if uid == 0 {
            Err(Error::ShippingRateUidCannotBeZero)
        } else if !spec_is_well_formed(info) {
            Err(Error::InvalidJson)
        } else if info.len() > 32768 {
            Err(Error::JsonIsTooLong)
        } else if shipperid == 0 {
            Err(Error::ShipperIdIsMissing)
        } else if !s.shippers.contains_key(shipperid as u64) {
            Err(Error::ShipperNotFound)
        } else if !s.iso_countries.contains_key(origincountry) {
            Err(Error::OriginCountryNotPresent)
        } else if !s.currencies.contains_key(currency) {
            Err(Error::CurrencyCodeNotFound)
        } else if Self::rates_records_check(s, rates, 0) is Err {
            Self::rates_records_check(s, rates, 0)
        } else {
            Ok(())
        }
    }

    /// Create a shipper's rate table: it names an existing shipper, origin
    /// country and currency, and each rate record names a stored destination
    /// country, a weight range and a nonzero rate.
    pub fn create_shipping_rates(&mut self, uid: u32, info: Vec<u8>) -> (r: Result<(), Error>)
        requires
            old(self).wf(),
        ensures
            final(self).wf(),
            r == Self::create_shipping_rates_outcome(old(self)@, uid, info@),
            r is Ok ==> final(self)@ == (State {
                shipping_rates: old(self)@.shipping_rates.insert(uid as u64, info@),
                events: old(self)@.events.push(Event::MarketShippingRateCreated(uid, info)),
                ..old(self)@
            }),
            r is Err ==> *final(self) == *old(self),
    {
        proof {
            lemma_eq_matches_view_u64();
            lemma_eq_matches_view_bytes();
        }
        if uid == 0 {
            return Err(Error::ShippingRateUidCannotBeZero);
        }
        if !is_well_formed(&info) {
            return Err(Error::InvalidJson);
        }
        if info.len() > 32768 {
            return Err(Error::JsonIsTooLong);
        }
        let shipperid_field = get_field(&info, &key_shipperid());
        let shipperid = vecu8_to_u32(&shipperid_field);
        if shipperid == 0 {
            return Err(Error::ShipperIdIsMissing);
        }
        if !self.shippers.contains_key(&(shipperid as u64)) {
            return Err(Error::ShipperNotFound);
        }
        let origincountry = get_field(&info, &key_origincountry());
        if !self.iso_countries.contains_key(&origincountry) {
            return Err(Error::OriginCountryNotPresent);
        }
        let currency = get_field(&info, &key_currency());
        if !self.currencies.contains_key(&currency) {
            return Err(Error::CurrencyCodeNotFound);
        }
        let rates = get_complex_field(&info, &key_rates());
        if rates.len() > 0 {
            let checked = self.check_rates_records(&rates);
            if let Err(e) = checked {
                return Err(e);
            }
        }
        let stored = clone_bytes(&info);
        self.shipping_rates.insert(uid as u64, stored);
        self.events.push(Event::MarketShippingRateCreated(uid, info));
        proof {
            assert(self@ =~= (State {
                shipping_rates: old(self)@.shipping_rates.insert(uid as u64, info@),
                events: self@.events,
                ..old(self)@
            }));
        }
        Ok(())
    }

    /// Check over the records of a product's media array: each record must
    /// carry a `description`, a `filename` and an `ipfs` address of at least
    /// 32 bytes, and a nonempty `color` must name a stored product color.
    pub open spec fn media_records_check(s: State, media: Seq<u8>, x: int) -> Result<(), Error>
        decreases media.len() - x,
    {
        if !(0 <= x < media.len()) {
            Ok(())
        } else {
            let rec = spec_get_record_element(media, x);
            let color = spec_get_field(rec, spec_key_color());
            if rec.len() == 0 {
                Ok(())
            } else if spec_get_field(rec, spec_key_description()).len() == 0 {
                Err(Error::MediaDescriptionIswrong)
            } else if spec_get_field(rec, spec_key_filename()).len() == 0 {
                Err(Error::MediaFileNameIsWrong)
            } else if spec_get_field(rec, spec_key_ipfs()).len() < 32 {
                Err(Error::MediaIpfsAddressIsWrong)
            } else if color.len() > 0 && !s.product_colors.contains_key(
                spec_vecu8_to_u32(color) as u64,
            ) {
                Err(Error::ColorNotFound)
            } else {
                Self::media_records_check(s, media, x + 1)
            }
        }
    }

    fn check_media_records(&self, media: &Vec<u8>) -> (r: Result<(), Error>)
        requires
            self.wf(),
        ensures
            r == Self::media_records_check(self@, media@, 0),
    {
        proof {
            lemma_eq_matches_view_u64();
        }
        let n = media.len();
        let mut x: usize = 0;
        loop
            invariant
                self.wf(),
                n == media@.len(),
                0 <= x <= media@.len(),
                Self::media_records_check(self@, media@, 0) == Self::media_records_check(
                    self@,
                    media@,
                    x as int,
                ),
                crate::store::eq_matches_view::<u64>(),
            ensures
                Self::media_records_check(self@, media@, 0) == Ok::<(), Error>(()),
            decreases media@.len() - x,
        {
            let rec = get_record_element(media, x);
            if rec.len() == 0 {
                break ;
            }
            proof {
                lemma_record_item_scan_bound(media@, 0, 0, x as int, true, crate::json::SPACE);
            }
            let description = get_field(&rec, &key_description());
            if description.len() == 0 {
                return Err(Error::MediaDescriptionIswrong);
            }
            let filename = get_field(&rec, &key_filename());
            if filename.len() == 0 {
                return Err(Error::MediaFileNameIsWrong);
            }
            let ipfs = get_field(&rec, &key_ipfs());
            if ipfs.len() < 32 {
                return Err(Error::MediaIpfsAddressIsWrong);
            }
            let color = get_field(&rec, &key_color());
            if color.len() > 0 {
                let colorvalue = vecu8_to_u32(&color);
                if !self.product_colors.contains_key(&(colorvalue as u64)) {
                    return Err(Error::ColorNotFound);
                }
            }
            x = x + 1;
        }
        Ok(())
    }

    /// Check that every element of an identifier array names an entry of the
    /// product-color store.
    pub open spec fn colors_array_check(s: State, ar: Seq<u8>, x: int) -> Result<(), Error>
        decreases ar.len() - x,
    {
        if !(0 <= x < ar.len()) {
            Ok(())
        } else if spec_get_array_element(ar, x).len() == 0 {
            Ok(())
        } else if !s.product_colors.contains_key(
            spec_vecu8_to_u32(spec_get_array_element(ar, x)) as u64,
        ) {
            Err(Error::ColorNotFound)
        } else {
            Self::colors_array_check(s, ar, x + 1)
        }
    }

    fn check_colors_array(&self, ar: &Vec<u8>) -> (r: Result<(), Error>)
        requires
            self.wf(),
        ensures
            r == Self::colors_array_check(self@, ar@, 0),
    {
        proof {
            lemma_eq_matches_view_u64();
        }
        let n = ar.len();
        let mut x: usize = 0;
        loop
            invariant
                self.wf(),
                n == ar@.len(),
                0 <= x <= ar@.len(),
                Self::colors_array_check(self@, ar@, 0) == Self::colors_array_check(
                    self@,
                    ar@,
                    x as int,
                ),
                crate::store::eq_matches_view::<u64>(),
            ensures
                Self::colors_array_check(self@, ar@, 0) == Ok::<(), Error>(()),
            decreases ar@.len() - x,
        {
            let elem = get_array_element(ar, x);
            if elem.len() == 0 {
                break ;
            }
            proof {
                lemma_array_item_scan_bound(ar@, 0, 0, x as int, true, crate::json::SPACE);
            }
            let cv = vecu8_to_u32(&elem);
            if !self.product_colors.contains_key(&(cv as u64)) {
                return Err(Error::ColorNotFound);
            }
            x = x + 1;
        }
        Ok(())
    }

    /// Check that every element of an identifier array names an entry of the
    /// product-size store; a missing size reports `ColorNotFound`, the
    /// classification its callers key on.
    pub open spec fn sizes_array_check(s: State, ar: Seq<u8>, x: int) -> Result<(), Error>
        decreases ar.len() - x,
    {
        if !(0 <= x < ar.len()) {
            Ok(())
        } else if spec_get_array_element(ar, x).len() == 0 {
            Ok(())
        } else if !s.product_sizes.contains_key(
            spec_vecu8_to_u32(spec_get_array_element(ar, x)) as u64,
        ) {
            Err(Error::ColorNotFound)
        } else {
            Self::sizes_array_check(s, ar, x + 1)
        }
    }

    fn check_sizes_array(&self, ar: &Vec<u8>) -> (r: Result<(), Error>)
        requires
            self.wf(),
        ensures
            r == Self::sizes_array_check(self@, ar@, 0),
    {
        proof {
            lemma_eq_matches_view_u64();
        }
        let n = ar.len();
        let mut x: usize = 0;
        loop
            invariant
                self.wf(),
                n == ar@.len(),
                0 <= x <= ar@.len(),
                Self::sizes_array_check(self@, ar@, 0) == Self::sizes_array_check(
                    self@,
                    ar@,
                    x as int,
                ),
                crate::store::eq_matches_view::<u64>(),
            ensures
                Self::sizes_array_check(self@, ar@, 0) == Ok::<(), Error>(()),
            decreases ar@.len() - x,
        {
            let elem = get_array_element(ar, x);
            if elem.len() == 0 {
                break ;
            }
            proof {
                lemma_array_item_scan_bound(ar@, 0, 0, x as int, true, crate::json::SPACE);
            }
            let szv = vecu8_to_u32(&elem);
            if !self.product_sizes.contains_key(&(szv as u64)) {
                return Err(Error::ColorNotFound);
            }
            x = x + 1;
        }
        Ok(())
    }

    /// Check over a product's shipping-country array: an element that names
    /// a country already on store is refused; only codes not yet stored
    /// pass.
    pub open spec fn shipping_countries_check(s: State, ar: Seq<u8>, x: int) -> Result<(), Error>
        decreases ar.len() - x,
    {
        if !(0 <= x < ar.len()) {
            Ok(())
        } else if spec_get_array_element(ar, x).len() == 0 {
            Ok(())
        } else if s.iso_countries.contains_key(spec_get_array_element(ar, x)) {
            Err(Error::CountryCodeNotFound)
        } else {
            Self::shipping_countries_check(s, ar, x + 1)
        }
    }

    fn check_shipping_countries(&self, ar: &Vec<u8>) -> (r: Result<(), Error>)
        requires
            self.wf(),
        ensures
            r == Self::shipping_countries_check(self@, ar@, 0),
    {
        proof {
            lemma_eq_matches_view_bytes();
        }
        let n = ar.len();
        let mut x: usize = 0;
        loop
            invariant
                self.wf(),
                n == ar@.len(),
                0 <= x <= ar@.len(),
                Self::shipping_countries_check(self@, ar@, 0) == Self::shipping_countries_check(
                    self@,
                    ar@,
                    x as int,
                ),
                crate::store::eq_matches_view::<Vec<u8>>(),
            ensures
                Self::shipping_countries_check(self@, ar@, 0) == Ok::<(), Error>(()),
            decreases ar@.len() - x,
        {
            let elem = get_array_element(ar, x);
            if elem.len() == 0 {
                break ;
            }
            proof {
                lemma_array_item_scan_bound(ar@, 0, 0, x as int, true, crate::json::SPACE);
            }
            if self.iso_countries.contains_key(&elem) {
                return Err(Error::CountryCodeNotFound);
            }
            x = x + 1;
        }
        Ok(())
    }

    /// Walk a shipper-identifier list: every element, the empty trailing one
    /// included, must convert to a stored shipper identifier, so the walk
    /// always ends in `ShipperNotFound` at the first empty element, since
    /// identifier 0 is never stored.
    pub open spec fn shippers_value_check(s: State, ar: Seq<u8>, x: int) -> Result<(), Error>
        decreases ar.len() + 1 - x,
    {
        if !(0 <= x <= ar.len()) {
            Err(Error::ShipperNotFound)
        } else {
            let v = spec_vecu8_to_u32(spec_get_array_element(ar, x));
            if !s.shippers.contains_key(v as u64) {
                Err(Error::ShipperNotFound)
            } else {
                Self::shippers_value_check(s, ar, x + 1)
            }
        }
    }

    fn check_shippers_values(&self, ar: &Vec<u8>) -> (r: Result<(), Error>)
        requires
            self.wf(),
        ensures
            r == Self::shippers_value_check(self@, ar@, 0),
    {
        proof {
            lemma_eq_matches_view_u64();
        }
        let n = ar.len();
        let mut x: usize = 0;
        loop
            invariant
                self.wf(),
                n == ar@.len(),
                0 <= x <= ar@.len(),
                Self::shippers_value_check(self@, ar@, 0) == Self::shippers_value_check(
                    self@,
                    ar@,
                    x as int,
                ),
                crate::store::eq_matches_view::<u64>(),
                !self@.shippers.contains_key(0),
            decreases ar@.len() - x,
        {
            let elem = get_array_element(ar, x);
            let v = vecu8_to_u32(&elem);
            if !self.shippers.contains_key(&(v as u64)) {
                return Err(Error::ShipperNotFound);
            }
            proof {
                if elem@.len() == 0 {
                    assert(spec_vecu8_to_u32(elem@) == 0);
                    assert(false);
                }
                lemma_array_item_scan_bound(ar@, 0, 0, x as int, true, crate::json::SPACE);
            }
            x = x + 1;
        }
    }

    /// Outcome of `create_update_product`.
    pub open spec fn create_update_product_outcome(s: State, uid: u32, configuration: Seq<u8>) -> Result<
        (),
        Error,
    > {
        let description = spec_get_field(configuration, spec_key_description());
        let longdescription = spec_get_field(configuration, spec_key_longdescription());
        let price = spec_vecu8_to_u128(spec_get_field(configuration, spec_key_price()));
        let currencycode = spec_get_field(configuration, spec_key_currency());
        let specifications = spec_get_field(configuration, spec_key_specifications());
        let media = spec_get_complex_field(configuration, spec_key_media());
        let colors = spec_get_complex_field(configuration, spec_key_colors());
        let sizes = spec_get_complex_field(configuration, spec_key_sizes());
        let dimension = spec_get_complex_field(configuration, spec_key_dimension());
        let upc = spec_get_field(configuration, spec_key_upc());
        let shippingcountries = spec_get_complex_field(
            configuration,
            spec_key_shippingcountries(),
        );
        let shippers = spec_get_field(configuration, spec_key_shippers());
        let apiavailability = spec_get_field(configuration, spec_key_apiavailability());
        let language = spec_get_field(configuration, spec_key_language());
        if configuration.len() <= 12 {
            Err(Error::ConfigurationTooShort)
        } else if configuration.len() >= 65536 {
            Err(Error::ConfigurationTooLong)
        } else if !spec_is_well_formed(configuration) {
            Err(Error::InvalidJson)
        } else if description.len() < 10 {
            Err(Error::ProductDescriptionTooShort)
        } else if description.len() > 64 {
            Err(Error::ProductDescriptionTooLong)
        } else if longdescription.len() < 64 {
            Err(Error::ProductLongDescriptionTooShort)
        } else if longdescription.len() > 8192 {
            Err(Error::ProductLongDescriptionTooLong)
        } else if price == 0 {
            Err(Error::ProductPriceCannotBeZero)
        } else if !s.currencies.contains_key(currencycode) {
            Err(Error::CurrencyCodeNotFound)
        } else if !(specifications.len() == 0 || specifications.len() >= 8192) {
            Err(Error::SpecificationsIsdInvalid)
        } else if media.len() <= 10 {
            Err(Error::MediaCannotBeEmpty)
        } else if Self::media_records_check(s, media, 0) is Err {
            Self::media_records_check(s, media, 0)
        } else if Self::colors_array_check(s, colors, 0) is Err {
            Self::colors_array_check(s, colors, 0)
        } else if Self::sizes_array_check(s, sizes, 0) is Err {
            Self::sizes_array_check(s, sizes, 0)
        } else if dimension.len() > 0 && spec_get_record_element(dimension, 0).len() == 0 {
            Err(Error::DimensionWrongLength)
        } else if upc.len() <= 7 {
            Err(Error::UniversalProductCodeIsWrong)
        } else if Self::shipping_countries_check(s, shippingcountries, 0) is Err {
            Self::shipping_countries_check(s, shippingcountries, 0)
        } else if shippers.len() > 0 && Self::shippers_value_check(s, shippers, 0) is Err {
            Self::shippers_value_check(s, shippers, 0)
        } else if apiavailability.len() > 0 && !spec_validate_weburl(apiavailability) {
            Err(Error::InvalidApiUrl)
        } else if language.len() > 0 && !spec_validate_languagecode(language) {
            Err(Error::LanguageCodeIsWrong)
        } else {
            Ok(())
        }
    }

    /// Create or update a product from its configuration buffer: checked
    /// descriptions, a nonzero price in a stored currency, media records,
    /// optional color/size/shipping constraints and optional URL and language
    /// fields. A nonempty `dimension` table must open with a record; a
    /// nonempty `shippers` list is always refused at its trailing empty
    /// element.
    pub fn create_update_product(&mut self, uid: u32, configuration: Vec<u8>) -> (r: Result<
        (),
        Error,
    >)
        requires
            old(self).wf(),
        ensures
            final(self).wf(),
            r == Self::create_update_product_outcome(old(self)@, uid, configuration@),
            r is Ok ==> final(self)@ == (State {
                products: old(self)@.products.insert(uid as u64, configuration@),
                events: old(self)@.events.push(Event::MarketPlaceProductUpdated(uid, configuration)),
                ..old(self)@
            }),
            r is Err ==> *final(self) == *old(self),
    {
        proof {
            lemma_eq_matches_view_u64();
            lemma_eq_matches_view_bytes();
        }
        if configuration.len() <= 12 {
            return Err(Error::ConfigurationTooShort);
        }
        if configuration.len() >= 65536 {
            return Err(Error::ConfigurationTooLong);
        }
        if !is_well_formed(&configuration) {
            return Err(Error::InvalidJson);
        }
        let description = get_field(&configuration, &key_description());
        if description.len() < 10 {
            return Err(Error::ProductDescriptionTooShort);
        }
        if description.len() > 64 {
            return Err(Error::ProductDescriptionTooLong);
        }
        let longdescription = get_field(&configuration, &key_longdescription());
        if longdescription.len() < 64 {
            return Err(Error::ProductLongDescriptionTooShort);
        }
        if longdescription.len() > 8192 {
            return Err(Error::ProductLongDescriptionTooLong);
        }
        let price_field = get_field(&configuration, &key_price());
        let pricevalue = vecu8_to_u128(&price_field);
        if pricevalue == 0 {
            return Err(Error::ProductPriceCannotBeZero);
        }
        let currencycode = get_field(&configuration, &key_currency());
        if !self.currencies.contains_key(&currencycode) {
            return Err(Error::CurrencyCodeNotFound);
        }
        let specifications = get_field(&configuration, &key_specifications());
        if !(specifications.len() == 0 || specifications.len() >= 8192) {
            return Err(Error::SpecificationsIsdInvalid);
        }
        let media = get_complex_field(&configuration, &key_media());
        if media.len() <= 10 {
            return Err(Error::MediaCannotBeEmpty);
        }
        let media_checked = self.check_media_records(&media);
        if let Err(e) = media_checked {
            return Err(e);
        }
        let colors = get_complex_field(&configuration, &key_colors());
        if colors.len() > 0 {
            let checked = self.check_colors_array(&colors);
            if let Err(e) = checked {
                return Err(e);
            }
        }
        let sizes = get_complex_field(&configuration, &key_sizes());
        if sizes.len() > 0 {
            let checked = self.check_sizes_array(&sizes);
            if let Err(e) = checked {
                return Err(e);
            }
        }
        let dimension = get_complex_field(&configuration, &key_dimension());
        if dimension.len() > 0 {
            let jr = get_record_element(&dimension, 0);
            if jr.len() == 0 {
                return Err(Error::DimensionWrongLength);
            }
        }
        let upc = get_field(&configuration, &key_upc());
        if upc.len() <= 7 {
            return Err(Error::UniversalProductCodeIsWrong);
        }
        let shippingcountries = get_complex_field(&configuration, &key_shippingcountries());
        if shippingcountries.len() > 0 {
            let checked = self.check_shipping_countries(&shippingcountries);
            if let Err(e) = checked {
                return Err(e);
            }
        }
        let shippers_field = get_field(&configuration, &key_shippers());
        if shippers_field.len() > 0 {
            let checked = self.check_shippers_values(&shippers_field);
            if let Err(e) = checked {
                return Err(e);
            }
        }
        let apiavailability = get_field(&configuration, &key_apiavailability());
        if apiavailability.len() > 0 {
            if !validate_weburl(&apiavailability) {
                return Err(Error::InvalidApiUrl);
            }
        }
        let language = get_field(&configuration, &key_language());
        if language.len() > 0 {
            if !validate_languagecode(&language) {
                return Err(Error::LanguageCodeIsWrong);
            }
        }
        if self.products.contains_key(&(uid as u64)) {
            self.products.remove(&(uid as u64));
        }
        let stored = clone_bytes(&configuration);
        self.products.insert(uid as u64, stored);
        self.events.push(Event::MarketPlaceProductUpdated(uid, configuration));
        proof {
            assert(old(self)@.products.remove(uid as u64).insert(uid as u64, configuration@)
                =~= old(self)@.products.insert(uid as u64, configuration@));
            assert(self@ =~= (State {
                products: old(self)@.products.insert(uid as u64, configuration@),
                events: self@.events,
                ..old(self)@
            }));
        }
        Ok(())
    }

    /// Check over the records of a URL array: each record's `key` field must
    /// be a valid web URL, else `err`.
    pub open spec fn weburl_records_check(ws: Seq<u8>, key: Seq<u8>, err: Error, x: int) -> Result<
        (),
        Error,
    >
        decreases ws.len() - x,
    {
        if !(0 <= x < ws.len()) {
            Ok(())
        } else if spec_get_record_element(ws, x).len() == 0 {
            Ok(())
        } else if !spec_validate_weburl(
            spec_get_field(spec_get_record_element(ws, x), key),
        ) {
            Err(err)
        } else {
            Self::weburl_records_check(ws, key, err, x + 1)
        }
    }

    fn check_weburl_records(ws: &Vec<u8>, key: &Vec<u8>, err: Error) -> (r: Result<(), Error>)
        ensures
            r == Self::weburl_records_check(ws@, key@, err, 0),
    {
        let n = ws.len();
        let mut x: usize = 0;
        loop
            invariant
                n == ws@.len(),
                0 <= x <= ws@.len(),
                Self::weburl_records_check(ws@, key@, err, 0) == Self::weburl_records_check(
                    ws@,
                    key@,
                    err,
                    x as int,
                ),
            ensures
                Self::weburl_records_check(ws@, key@, err, 0) == Ok::<(), Error>(()),
            decreases ws@.len() - x,
        {
            let rec = get_record_element(ws, x);
            if rec.len() == 0 {
                break ;
            }
            proof {
                lemma_record_item_scan_bound(ws@, 0, 0, x as int, true, crate::json::SPACE);
            }
            let url = get_field(&rec, key);
            if !validate_weburl(&url) {
                return Err(err);
            }
            x = x + 1;
        }
        Ok(())
    }

    /// The certification fields a seller configuration must carry whenever
    /// its certification array holds a record; they are read from the whole
    /// configuration, not from the record, so one reading decides.
    pub open spec fn certification_fields_check(conf: Seq<u8>) -> Result<(), Error> {
        let description = spec_get_field(conf, spec_key_description());
        let url = spec_get_field(conf, spec_key_verificationurl());
        if description.len() <= 3 {
            Err(Error::SellerCertificationDescriptionTooShort)
        } else if description.len() > 64 {
            Err(Error::SellerCertificationDescriptionTooLong)
        } else if url.len() <= 3 {
            Err(Error::SellerCertificateVerificationTooShort)
        } else if url.len() > 64 {
            Err(Error::SellerCertificateVerificationTooLong)
        } else if !spec_validate_weburl(url) {
            Err(Error::SellerCertificationUrlIsWrong)
        } else {
            Ok(())
        }
    }

    /// The phone fields a seller configuration must carry whenever its phone
    /// array holds a record; read from the whole configuration, the number
    /// under the key `phonebumber` (so spelled).
    pub open spec fn phone_fields_check(conf: Seq<u8>) -> Result<(), Error> {
        let description = spec_get_field(conf, spec_key_phonedescription());
        let number = spec_get_field(conf, spec_key_phonebumber());
        if description.len() <= 3 {
            Err(Error::SellerPhoneDescriptionTooShort)
        } else if description.len() > 64 {
            Err(Error::SellerPhoneDescriptionTooLong)
        } else if number.len() <= 3 {
            Err(Error::SellerPhoneNumberTooShort)
        } else if number.len() > 23 {
            Err(Error::SellerPhoneNumberTooLong)
        } else if !spec_validate_phonenumber(number) {
            Err(Error::SellerPhoneNumberIsWrong)
        } else {
            Ok(())
        }
    }

    /// The category and country cross-references a seller configuration must
    /// satisfy when the respective arrays hold a record; both identifiers are
    /// read from the whole configuration, not from the record.
    pub open spec fn seller_category_check(s: State, conf: Seq<u8>) -> Result<(), Error> {
        let category = spec_vecu8_to_u32(spec_get_field(conf, spec_key_category()));
        let department = spec_vecu8_to_u32(spec_get_field(conf, spec_key_department()));
        if !s.product_categories.contains_key((category as u64, department as u64)) {
            Err(Error::ProductCategoryNotFound)
        } else {
            Ok(())
        }
    }

    pub open spec fn seller_country_check(s: State, conf: Seq<u8>) -> Result<(), Error> {
        let country = spec_get_field(conf, spec_key_country());
        let inout = spec_vecu8_to_u32(spec_get_field(conf, spec_key_inout()));
        if !s.iso_countries.contains_key(country) {
            Err(Error::CountryCodeNotFound)
        } else if !(inout == 0 || inout == 1) {
            Err(Error::IncludedExcludedCountryValueIsMissing)
        } else {
            Ok(())
        }
    }

    /// The shipment-area fields that must all be present when the area is
    /// given.
    pub open spec fn shipmentarea_fields_check(area: Seq<u8>) -> Result<(), Error> {
        if spec_get_field(area, spec_key_centerlatitude()).len() == 0 {
            Err(Error::ShipmentAreaCenterLatitudeIsMissing)
        } else if spec_get_field(area, spec_key_centerlongitude()).len() == 0 {
            Err(Error::ShipmentAreaCenterLongitudeIsMissing)
        } else if spec_get_field(area, spec_key_borderlatitude()).len() == 0 {
            Err(Error::ShipmentAreaBorderLatitudeIsMissing)
        } else if spec_get_field(area, spec_key_borderlongitude()).len() == 0 {
            Err(Error::ShipmentAreaBorderLongituteIsMissing)
        } else {
            Ok(())
        }
    }

    /// The account a seller configuration is stored under: the signer, or
    /// the `selleraccount` field decoded from Base58, bytes 1 through 32. A
    /// field that does not decode to at least 33 bytes is refused as
    /// unauthorized.
    pub open spec fn seller_account_resolution(sender: Seq<u8>, conf: Seq<u8>) -> Result<
        Seq<u8>,
        Error,
    > {
        let sa = spec_get_field(conf, spec_key_selleraccount());
        if sa.len() == 0 {
            Ok(sender)
        } else {
            match base58_decoded(sa) {
                Option::None => Err(Error::SignerIsNotAuthorized),
                Option::Some(b) => if b.len() < 33 {
                    Err(Error::SignerIsNotAuthorized)
                } else {
                    Ok(b.subrange(1, 33))
                },
            }
        }
    }

    /// Whether the signer may write the seller record of `account`: a new
    /// record always, one's own record always, another's record only through
    /// its `proxyaccount` field naming the signer.
    pub open spec fn seller_authorization(s: State, signer: Seq<u8>, account: Seq<u8>) -> Result<
        (),
        Error,
    > {
        if !s.sellers.contains_key(account) || account == signer {
            Ok(())
        } else {
            let proxy = spec_get_field(s.sellers[account], spec_key_proxyaccount());
            if proxy.len() == 0 {
                Err(Error::SignerIsNotAuthorized)
            } else {
                match base58_decoded(proxy) {
                    Option::None => Err(Error::SignerIsNotAuthorized),
                    Option::Some(b) => if b.len() < 33 {
                        Err(Error::SignerIsNotAuthorized)
                    } else if b.subrange(1, 33) != signer {
                        Err(Error::SignerIsNotAuthorized)
                    } else {
                        Ok(())
                    },
                }
            }
        }
    }

    /// Outcome of `create_update_seller`.
    pub open spec fn create_update_seller_outcome(
        s: State,
        sender: Seq<u8>,
        conf: Seq<u8>,
    ) -> Result<(), Error> {
        let sellertype = spec_vecu8_to_u32(spec_get_field(conf, spec_key_sellertype()));
        let name = spec_get_field(conf, spec_key_name());
        let address = spec_get_field(conf, spec_key_address());
        let zip = spec_get_field(conf, spec_key_zip());
        let pobox = spec_get_field(conf, spec_key_pobox());
        let city = spec_get_field(conf, spec_key_city());
        let websites = spec_get_complex_field(conf, spec_key_websites());
        let socialurls = spec_get_complex_field(conf, spec_key_socialurls());
        let certifications = spec_get_complex_field(conf, spec_key_certifications());
        let emailinfo = spec_get_field(conf, spec_key_emailinfo());
        let emailsupport = spec_get_field(conf, spec_key_emailsupport());
        let phones = spec_get_complex_field(conf, spec_key_phones());
        let categories = spec_get_complex_field(conf, spec_key_categories());
        let countries = spec_get_complex_field(conf, spec_key_countries());
        let shipmentarea = spec_get_complex_field(conf, spec_key_shipmentarea());
        let defaultlanguage = spec_get_field(conf, spec_key_defaultlanguage());
        let defaultunitmeasurement = spec_get_field(conf, spec_key_defaultunitmeasurement());
        let defaultreturnpolicy = spec_get_field(conf, spec_key_defaultreturnpolicy());
        if conf.len() <= 12 {
            Err(Error::ConfigurationTooShort)
        } else if conf.len() >= 8192 {
            Err(Error::ConfigurationTooLong)
        } else if !spec_is_well_formed(conf) {
            Err(Error::InvalidJson)
        } else if !(sellertype == 1 || sellertype == 2 || sellertype == 3 || sellertype == 4
            || sellertype == 5) {
            Err(Error::SellerTypeInvalid)
        } else if name.len() <= 5 {
            Err(Error::SellerNameTooShort)
        } else if address.len() >= 128 {
            Err(Error::SellerAddressTooLong)
        } else if zip.len() >= 13 {
            Err(Error::SellerZipCodeTooLong)
        } else if pobox.len() >= 64 {
            Err(Error::SellerPoBoxTooLong)
        } else if city.len() <= 5 {
            Err(Error::SellerCityTooShort)
        } else if city.len() >= 64 {
            Err(Error::SellerCityTooLong)
        } else if Self::weburl_records_check(
            websites,
            spec_key_weburl(),
            Error::SellerWebsiteUrlIsWrong,
            0,
        ) is Err {
            Self::weburl_records_check(websites, spec_key_weburl(), Error::SellerWebsiteUrlIsWrong, 0)
        } else if Self::weburl_records_check(
            socialurls,
            spec_key_socialurl(),
            Error::SellerSocialUrlIsWrong,
            0,
        ) is Err {
            Self::weburl_records_check(
                socialurls,
                spec_key_socialurl(),
                Error::SellerSocialUrlIsWrong,
                0,
            )
        } else if certifications.len() > 0 && spec_get_record_element(certifications, 0).len() > 0
            && Self::certification_fields_check(conf) is Err {
            Self::certification_fields_check(conf)
        } else if emailinfo.len() <= 5 {
            Err(Error::SellerInfoEmailIsWrong)
        } else if !spec_validate_email(emailinfo) {
            Err(Error::SellerInfoEmailIsWrong)
        } else if emailsupport.len() <= 5 {
            Err(Error::SellerSupportEmailIsWrong)
        } else if !spec_validate_email(emailsupport) {
            Err(Error::SellerSupportEmailIsWrong)
        } else if phones.len() > 0 && spec_get_record_element(phones, 0).len() > 0
            && Self::phone_fields_check(conf) is Err {
            Self::phone_fields_check(conf)
        } else if categories.len() == 0 {
            Err(Error::SellerCategoriesMissing)
        } else if spec_get_record_element(categories, 0).len() > 0 && Self::seller_category_check(
            s,
            conf,
        ) is Err {
            Self::seller_category_check(s, conf)
        } else if spec_get_record_element(categories, 0).len() == 0 {
            Err(Error::SellerCategoriesMissing)
        } else if countries.len() == 0 {
            Err(Error::SellercountriesMissing)
        } else if spec_get_record_element(countries, 0).len() > 0 && Self::seller_country_check(
            s,
            conf,
        ) is Err {
            Self::seller_country_check(s, conf)
        } else if spec_get_record_element(countries, 0).len() == 0 {
            Err(Error::SellerCategoriesMissing)
        } else if shipmentarea.len() > 0 && Self::shipmentarea_fields_check(shipmentarea) is Err {
            Self::shipmentarea_fields_check(shipmentarea)
        } else if defaultlanguage.len() > 0 && !spec_validate_languagecode(defaultlanguage) {
            Err(Error::SellerDefaultLanguageIsWrong)
        } else if defaultunitmeasurement.len() > 0 && !spec_validate_unitmeasurement(
            defaultunitmeasurement,
        ) {
            Err(Error::SellerDefaultUnitMeasurementIsWrong)
        } else if defaultreturnpolicy.len() > 0 && spec_vecu8_to_u32(defaultreturnpolicy) >= 3650 {
            Err(Error::DefaultReturnPolicyIsExcessive)
        } else if Self::seller_account_resolution(sender, conf) is Err {
            Err(Error::SignerIsNotAuthorized)
        } else if Self::seller_authorization(
            s,
            sender,
            Self::seller_account_resolution(sender, conf).unwrap(),
        ) is Err {
            Err(Error::SignerIsNotAuthorized)
        } else {
            Ok(())
        }
    }

    /// The event carries the account the record was stored under and the
    /// configuration itself.
    pub open spec fn is_seller_created_event(e: Event, account: Seq<u8>, conf: Seq<u8>) -> bool {
        match e {
            Event::MarketPlaceSellerCreated(a, c) => a@ == account && c@ == conf,
            _ => false,
        }
    }

    /// Create or update a seller record from its configuration buffer. The
    /// record is stored under the signer, or under the `selleraccount` named
    /// in the configuration when a proxy signs; updating a record that
    /// belongs to another account demands that its `proxyaccount` field name
    /// the signer.
    pub fn create_update_seller(&mut self, sender: AccountId, configuration: Vec<u8>) -> (r:
        Result<(), Error>)
        requires
            old(self).wf(),
        ensures
            final(self).wf(),
            r == Self::create_update_seller_outcome(old(self)@, sender@, configuration@),
            r is Ok ==> {
                let account = Self::seller_account_resolution(
                    sender@,
                    configuration@,
                ).unwrap();
                &&& final(self)@.sellers == old(self)@.sellers.insert(account, configuration@)
                &&& final(self)@.events.len() == old(self)@.events.len() + 1
                &&& final(self)@.events.drop_last() == old(self)@.events
                &&& Self::is_seller_created_event(
                    final(self)@.events.last(),
                    account,
                    configuration@,
                )
                &&& final(self)@.iso_countries == old(self)@.iso_countries
                &&& final(self)@.product_departments == old(self)@.product_departments
                &&& final(self)@.product_categories == old(self)@.product_categories
                &&& final(self)@.currencies == old(self)@.currencies
                &&& final(self)@.product_colors == old(self)@.product_colors
                &&& final(self)@.product_sizes == old(self)@.product_sizes
                &&& final(self)@.products == old(self)@.products
                &&& final(self)@.shippers == old(self)@.shippers
                &&& final(self)@.shipping_rates == old(self)@.shipping_rates
                &&& final(self)@.iso_dialcode == old(self)@.iso_dialcode
                &&& final(self)@.login_data == old(self)@.login_data
                &&& final(self)@.email_account == old(self)@.email_account
                &&& final(self)@.email_encrypted_seed == old(self)@.email_encrypted_seed
                &&& final(self)@.product_models == old(self)@.product_models
                &&& final(self)@.brands == old(self)@.brands
                &&& final(self)@.manufacturers == old(self)@.manufacturers
            },
            r is Err ==> *final(self) == *old(self),
    {
        proof {
            lemma_eq_matches_view_bytes();
            lemma_eq_matches_view_pair();
        }
        if configuration.len() <= 12 {
            return Err(Error::ConfigurationTooShort);
        }
        if configuration.len() >= 8192 {
            return Err(Error::ConfigurationTooLong);
        }
        if !is_well_formed(&configuration) {
            return Err(Error::InvalidJson);
        }
        let sellertype_field = get_field(&configuration, &key_sellertype());
        let sellertype = vecu8_to_u32(&sellertype_field);
        if !(sellertype == 1 || sellertype == 2 || sellertype == 3 || sellertype == 4
            || sellertype == 5) {
            return Err(Error::SellerTypeInvalid);
        }
        let sellername = get_field(&configuration, &key_name());
        if sellername.len() <= 5 {
            return Err(Error::SellerNameTooShort);
        }
        let selleraddress = get_field(&configuration, &key_address());
        if selleraddress.len() >= 128 {
            return Err(Error::SellerAddressTooLong);
        }
        let sellerzip = get_field(&configuration, &key_zip());
        if sellerzip.len() >= 13 {
            return Err(Error::SellerZipCodeTooLong);
        }
        let sellerpobox = get_field(&configuration, &key_pobox());
        if sellerpobox.len() >= 64 {
            return Err(Error::SellerPoBoxTooLong);
        }
        let sellercity = get_field(&configuration, &key_city());
        if sellercity.len() <= 5 {
            return Err(Error::SellerCityTooShort);
        }
        if sellercity.len() >= 64 {
            return Err(Error::SellerCityTooLong);
        }
        let websites = get_complex_field(&configuration, &key_websites());
        if websites.len() > 0 {
            let checked = Self::check_weburl_records(
                &websites,
                &key_weburl(),
                Error::SellerWebsiteUrlIsWrong,
            );
            if let Err(e) = checked {
                return Err(e);
            }
        }
        let socialurls = get_complex_field(&configuration, &key_socialurls());
        if socialurls.len() > 0 {
            let checked = Self::check_weburl_records(
                &socialurls,
                &key_socialurl(),
                Error::SellerSocialUrlIsWrong,
            );
            if let Err(e) = checked {
                return Err(e);
            }
        }
        let certifications = get_complex_field(&configuration, &key_certifications());
        if certifications.len() > 0 {
            let first = get_record_element(&certifications, 0);
            if first.len() > 0 {
                let certificationdescription = get_field(&configuration, &key_description());
                if certificationdescription.len() <= 3 {
                    return Err(Error::SellerCertificationDescriptionTooShort);
                }
                if certificationdescription.len() > 64 {
                    return Err(Error::SellerCertificationDescriptionTooLong);
                }
                let verificationurl = get_field(&configuration, &key_verificationurl());
                if verificationurl.len() <= 3 {
                    return Err(Error::SellerCertificateVerificationTooShort);
                }
                if verificationurl.len() > 64 {
                    return Err(Error::SellerCertificateVerificationTooLong);
                }
                if !validate_weburl(&verificationurl) {
                    return Err(Error::SellerCertificationUrlIsWrong);
                }
            }
        }
        let emailinfo = get_field(&configuration, &key_emailinfo());
        if emailinfo.len() <= 5 {
            return Err(Error::SellerInfoEmailIsWrong);
        }
        if !validate_email(&emailinfo) {
            return Err(Error::SellerInfoEmailIsWrong);
        }
        let emailsupport = get_field(&configuration, &key_emailsupport());
        if emailsupport.len() <= 5 {
            return Err(Error::SellerSupportEmailIsWrong);
        }
        if !validate_email(&emailsupport) {
            return Err(Error::SellerSupportEmailIsWrong);
        }
        let phones = get_complex_field(&configuration, &key_phones());
        if phones.len() > 0 {
            let first = get_record_element(&phones, 0);
            if first.len() > 0 {
                let phonedescription = get_field(&configuration, &key_phonedescription());
                if phonedescription.len() <= 3 {
                    return Err(Error::SellerPhoneDescriptionTooShort);
                }
                if phonedescription.len() > 64 {
                    return Err(Error::SellerPhoneDescriptionTooLong);
                }
                let phonenumber = get_field(&configuration, &key_phonebumber());
                if phonenumber.len() <= 3 {
                    return Err(Error::SellerPhoneNumberTooShort);
                }
                if phonenumber.len() > 23 {
                    return Err(Error::SellerPhoneNumberTooLong);
                }
                if !validate_phonenumber(&phonenumber) {
                    return Err(Error::SellerPhoneNumberIsWrong);
                }
            }
        }
        let categories = get_complex_field(&configuration, &key_categories());
        if categories.len() == 0 {
            return Err(Error::SellerCategoriesMissing);
        }
        let first_category = get_record_element(&categories, 0);
        if first_category.len() > 0 {
            let category_field = get_field(&configuration, &key_category());
            let category = vecu8_to_u32(&category_field);
            let department_field = get_field(&configuration, &key_department());
            let department = vecu8_to_u32(&department_field);
            if !self.product_categories.contains_key(&(category as u64, department as u64)) {
                return Err(Error::ProductCategoryNotFound);
            }
        } else {
            return Err(Error::SellerCategoriesMissing);
        }
        let countries = get_complex_field(&configuration, &key_countries());
        if countries.len() == 0 {
            return Err(Error::SellercountriesMissing);
        }
        let first_country = get_record_element(&countries, 0);
        if first_country.len() > 0 {
            let country = get_field(&configuration, &key_country());
            let inout_field = get_field(&configuration, &key_inout());
            let inout = vecu8_to_u32(&inout_field);
            if !self.iso_countries.contains_key(&country) {
                return Err(Error::CountryCodeNotFound);
            }
            if !(inout == 0 || inout == 1) {
                return Err(Error::IncludedExcludedCountryValueIsMissing);
            }
        } else {
            return Err(Error::SellerCategoriesMissing);
        }
        let shipmentarea = get_complex_field(&configuration, &key_shipmentarea());
        if shipmentarea.len() > 0 {
            let centerlatitude = get_field(&shipmentarea, &key_centerlatitude());
            if centerlatitude.len() == 0 {
                return Err(Error::ShipmentAreaCenterLatitudeIsMissing);
            }
            let centerlongitude = get_field(&shipmentarea, &key_centerlongitude());
            if centerlongitude.len() == 0 {
                return Err(Error::ShipmentAreaCenterLongitudeIsMissing);
            }
            let borderlatitude = get_field(&shipmentarea, &key_borderlatitude());
            if borderlatitude.len() == 0 {
                return Err(Error::ShipmentAreaBorderLatitudeIsMissing);
            }
            let borderlongitude = get_field(&shipmentarea, &key_borderlongitude());
            if borderlongitude.len() == 0 {
                return Err(Error::ShipmentAreaBorderLongituteIsMissing);
            }
        }
        let defaultlanguage = get_field(&configuration, &key_defaultlanguage());
        if defaultlanguage.len() > 0 {
            if !validate_languagecode(&defaultlanguage) {
                return Err(Error::SellerDefaultLanguageIsWrong);
            }
        }
        let defaultunitmeasurement = get_field(&configuration, &key_defaultunitmeasurement());
        if defaultunitmeasurement.len() > 0 {
            if !validate_unitmeasurement(&defaultunitmeasurement) {
                return Err(Error::SellerDefaultUnitMeasurementIsWrong);
            }
        }
        let defaultreturnpolicy = get_field(&configuration, &key_defaultreturnpolicy());
        if defaultreturnpolicy.len() > 0 {
            let drp = vecu8_to_u32(&defaultreturnpolicy);
            if drp >= 3650 {
                return Err(Error::DefaultReturnPolicyIsExcessive);
            }
        }
        let selleraccount = get_field(&configuration, &key_selleraccount());
        let account: Vec<u8> = if selleraccount.len() == 0 {
            clone_bytes(&sender)
        } else {
            match decode_base58(&selleraccount) {
                Some(decoded) => {
                    if decoded.len() < 33 {
                        return Err(Error::SignerIsNotAuthorized);
                    }
                    bytes_slice(&decoded, 1, 33)
                },
                None => {
                    return Err(Error::SignerIsNotAuthorized);
                },
            }
        };
        if self.sellers.contains_key(&account) {
            if !bytes_eq(&account, &sender) {
                let proxyaccount = match self.sellers.get(&account) {
                    Some(settings) => get_field(settings, &key_proxyaccount()),
                    None => {
                        proof {
                            assert(false);
                        }
                        Vec::new()
                    },
                };
                if proxyaccount.len() == 0 {
                    return Err(Error::SignerIsNotAuthorized);
                }
                match decode_base58(&proxyaccount) {
                    Some(decoded) => {
                        if decoded.len() < 33 {
                            return Err(Error::SignerIsNotAuthorized);
                        }
                        let proxyid = bytes_slice(&decoded, 1, 33);
                        if !bytes_eq(&proxyid, &sender) {
                            return Err(Error::SignerIsNotAuthorized);
                        }
                    },
                    None => {
                        return Err(Error::SignerIsNotAuthorized);
                    },
                }
            }
            self.sellers.remove(&account);
        }
        let stored = clone_bytes(&configuration);
        let account_for_event = clone_bytes(&account);
        self.sellers.insert(account, stored);
        self.events.push(Event::MarketPlaceSellerCreated(account_for_event, configuration));
        proof {
            let acct = Self::seller_account_resolution(sender@, configuration@).unwrap();
            assert(old(self)@.sellers.remove(acct).insert(acct, configuration@)
                =~= old(self)@.sellers.insert(acct, configuration@));
            assert(self@.events.drop_last() =~= old(self)@.events);
        }
        Ok(())
    }

    /// The stored seller configuration, or an empty vector when none is stored.
    pub fn get_seller(&self, account: &Vec<u8>) -> (r: Vec<u8>)
        requires
            self.wf(),
        ensures
            self@.sellers.contains_key(account@) ==> r@ == self@.sellers[account@],
            !self@.sellers.contains_key(account@) ==> r@ == Seq::<u8>::empty(),
    {
        proof {
            lemma_eq_matches_view_bytes();
        }
        match self.sellers.get(account) {
            Some(v) => clone_bytes(v),
            None => Vec::new(),
        }
    }

    /// The stored country name, or an empty vector when none is stored.
    pub fn get_iso_country(&self, countrycode: &Vec<u8>) -> (r: Vec<u8>)
        requires
            self.wf(),
        ensures
            self@.iso_countries.contains_key(countrycode@) ==> r@ == self@.iso_countries[countrycode@],
            !self@.iso_countries.contains_key(countrycode@) ==> r@ == Seq::<u8>::empty(),
    {
        proof {
            lemma_eq_matches_view_bytes();
        }
        match self.iso_countries.get(countrycode) {
            Some(v) => clone_bytes(v),
            None => Vec::new(),
        }
    }

    /// The stored department description, or an empty vector when none is stored.
    pub fn get_products_department(&self, uid: u32) -> (r: Vec<u8>)
        requires
            self.wf(),
        ensures
            self@.product_departments.contains_key(uid as u64) ==> r@ == self@.product_departments[uid as u64],
            !self@.product_departments.contains_key(uid as u64) ==> r@ == Seq::<u8>::empty(),
    {
        proof {
            lemma_eq_matches_view_u64();
        }
        match self.product_departments.get(&(uid as u64)) {
            Some(v) => clone_bytes(v),
            None => Vec::new(),
        }
    }

    /// The stored category description, or an empty vector when none is stored.
    pub fn get_products_category(&self, uiddepartment: u32, uidcategory: u32) -> (r: Vec<u8>)
        requires
            self.wf(),
        ensures
            self@.product_categories.contains_key((uiddepartment as u64, uidcategory as u64))
                ==> r@ == self@.product_categories[(uiddepartment as u64, uidcategory as u64)],
            !self@.product_categories.contains_key((uiddepartment as u64, uidcategory as u64)) ==> r@ == Seq::<u8>::empty(),
    {
        proof {
            lemma_eq_matches_view_pair();
        }
        match self.product_categories.get(&(uiddepartment as u64, uidcategory as u64)) {
            Some(v) => clone_bytes(v),
            None => Vec::new(),
        }
    }

    /// The stored currency data, or an empty vector when none is stored.
    pub fn get_currency(&self, currencycode: &Vec<u8>) -> (r: Vec<u8>)
        requires
            self.wf(),
        ensures
            self@.currencies.contains_key(currencycode@) ==> r@ == self@.currencies[currencycode@],
            !self@.currencies.contains_key(currencycode@) ==> r@ == Seq::<u8>::empty(),
    {
        proof {
            lemma_eq_matches_view_bytes();
        }
        match self.currencies.get(currencycode) {
            Some(v) => clone_bytes(v),
            None => Vec::new(),
        }
    }

    /// The stored color description, or an empty vector when none is stored.
    pub fn get_products_color(&self, uid: u32) -> (r: Vec<u8>)
        requires
            self.wf(),
        ensures
            self@.product_colors.contains_key(uid as u64) ==> r@ == self@.product_colors[uid as u64],
            !self@.product_colors.contains_key(uid as u64) ==> r@ == Seq::<u8>::empty(),
    {
        proof {
            lemma_eq_matches_view_u64();
        }
        match self.product_colors.get(&(uid as u64)) {
            Some(v) => clone_bytes(v),
            None => Vec::new(),
        }
    }

    /// The stored size table, or an empty vector when none is stored.
    pub fn get_products_size(&self, uid: u32) -> (r: Vec<u8>)
        requires
            self.wf(),
        ensures
            self@.product_sizes.contains_key(uid as u64) ==> r@ == self@.product_sizes[uid as u64],
            !self@.product_sizes.contains_key(uid as u64) ==> r@ == Seq::<u8>::empty(),
    {
        proof {
            lemma_eq_matches_view_u64();
        }
        match self.product_sizes.get(&(uid as u64)) {
            Some(v) => clone_bytes(v),
            None => Vec::new(),
        }
    }

    /// The stored product configuration, or an empty vector when none is stored.
    pub fn get_product(&self, uid: u32) -> (r: Vec<u8>)
        requires
            self.wf(),
        ensures
            self@.products.contains_key(uid as u64) ==> r@ == self@.products[uid as u64],
            !self@.products.contains_key(uid as u64) ==> r@ == Seq::<u8>::empty(),
    {
        proof {
            lemma_eq_matches_view_u64();
        }
        match self.products.get(&(uid as u64)) {
            Some(v) => clone_bytes(v),
            None => Vec::new(),
        }
    }

    /// The stored shipper data, or an empty vector when none is stored.
    pub fn get_shipper(&self, uid: u32) -> (r: Vec<u8>)
        requires
            self.wf(),
        ensures
            self@.shippers.contains_key(uid as u64) ==> r@ == self@.shippers[uid as u64],
            !self@.shippers.contains_key(uid as u64) ==> r@ == Seq::<u8>::empty(),
    {
        proof {
            lemma_eq_matches_view_u64();
        }
        match self.shippers.get(&(uid as u64)) {
            Some(v) => clone_bytes(v),
            None => Vec::new(),
        }
    }

    /// The stored rate table, or an empty vector when none is stored.
    pub fn get_shipper_rate(&self, uid: u32) -> (r: Vec<u8>)
        requires
            self.wf(),
        ensures
            self@.shipping_rates.contains_key(uid as u64) ==> r@ == self@.shipping_rates[uid as u64],
            !self@.shipping_rates.contains_key(uid as u64) ==> r@ == Seq::<u8>::empty(),
    {
        proof {
            lemma_eq_matches_view_u64();
        }
        match self.shipping_rates.get(&(uid as u64)) {
            Some(v) => clone_bytes(v),
            None => Vec::new(),
        }
    }

    /// The stored dial code, or an empty vector when none is stored.
    pub fn get_iso_dialcode(&self, countrycode: &Vec<u8>) -> (r: Vec<u8>)
        requires
            self.wf(),
        ensures
            self@.iso_dialcode.contains_key(countrycode@) ==> r@ == self@.iso_dialcode[countrycode@],
            !self@.iso_dialcode.contains_key(countrycode@) ==> r@ == Seq::<u8>::empty(),
    {
        proof {
            lemma_eq_matches_view_bytes();
        }
        match self.iso_dialcode.get(countrycode) {
            Some(v) => clone_bytes(v),
            None => Vec::new(),
        }
    }

    /// The stored password hash, or an empty vector when none is stored.
    pub fn get_login_data(&self, emailhash: &Vec<u8>) -> (r: Vec<u8>)
        requires
            self.wf(),
        ensures
            self@.login_data.contains_key(emailhash@) ==> r@ == self@.login_data[emailhash@],
            !self@.login_data.contains_key(emailhash@) ==> r@ == Seq::<u8>::empty(),
    {
        proof {
            lemma_eq_matches_view_bytes();
        }
        match self.login_data.get(emailhash) {
            Some(v) => clone_bytes(v),
            None => Vec::new(),
        }
    }

    /// The account stored for an email hash, or an empty vector when none is stored.
    pub fn get_email_account(&self, emailhash: &Vec<u8>) -> (r: Vec<u8>)
        requires
            self.wf(),
        ensures
            self@.email_account.contains_key(emailhash@) ==> r@ == self@.email_account[emailhash@],
            !self@.email_account.contains_key(emailhash@) ==> r@ == Seq::<u8>::empty(),
    {
        proof {
            lemma_eq_matches_view_bytes();
        }
        match self.email_account.get(emailhash) {
            Some(v) => clone_bytes(v),
            None => Vec::new(),
        }
    }

    /// The stored encrypted seed, or an empty vector when none is stored.
    pub fn get_encrypted_seed(&self, emailhash: &Vec<u8>) -> (r: Vec<u8>)
        requires
            self.wf(),
        ensures
            self@.email_encrypted_seed.contains_key(emailhash@) ==> r@ == self@.email_encrypted_seed[emailhash@],
            !self@.email_encrypted_seed.contains_key(emailhash@) ==> r@ == Seq::<u8>::empty(),
    {
        proof {
            lemma_eq_matches_view_bytes();
        }
        match self.email_encrypted_seed.get(emailhash) {
            Some(v) => clone_bytes(v),
            None => Vec::new(),
        }
    }

    /// The stored model data, or an empty vector when none is stored.
    pub fn get_product_model(&self, uid: u32) -> (r: Vec<u8>)
        requires
            self.wf(),
        ensures
            self@.product_models.contains_key(uid as u64) ==> r@ == self@.product_models[uid as u64],
            !self@.product_models.contains_key(uid as u64) ==> r@ == Seq::<u8>::empty(),
    {
        proof {
            lemma_eq_matches_view_u64();
        }
        match self.product_models.get(&(uid as u64)) {
            Some(v) => clone_bytes(v),
            None => Vec::new(),
        }
    }

    /// The stored brand data, or an empty vector when none is stored.
    pub fn get_brand(&self, uid: u32) -> (r: Vec<u8>)
        requires
            self.wf(),
        ensures
            self@.brands.contains_key(uid as u64) ==> r@ == self@.brands[uid as u64],
            !self@.brands.contains_key(uid as u64) ==> r@ == Seq::<u8>::empty(),
    {
        proof {
            lemma_eq_matches_view_u64();
        }
        match self.brands.get(&(uid as u64)) {
            Some(v) => clone_bytes(v),
            None => Vec::new(),
        }
    }

    /// The stored manufacturer data, or an empty vector when none is stored.
    pub fn get_manufacturer(&self, uid: u32) -> (r: Vec<u8>)
        requires
            self.wf(),
        ensures
            self@.manufacturers.contains_key(uid as u64) ==> r@ == self@.manufacturers[uid as u64],
            !self@.manufacturers.contains_key(uid as u64) ==> r@ == Seq::<u8>::empty(),
    {
        proof {
            lemma_eq_matches_view_u64();
        }
        match self.manufacturers.get(&(uid as u64)) {
            Some(v) => clone_bytes(v),
            None => Vec::new(),
        }
    }
}

} // verus!
