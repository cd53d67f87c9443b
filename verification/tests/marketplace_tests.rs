use aisland::marketplace::Error;
use aisland::marketplace::Event;
use aisland::marketplace::Pallet;

fn seller_config() -> Vec<u8> {
    let conf = "{\"sellertype\":1,\"name\":\"JohnStore\",\"city\":\"Sydney\",\"emailinfo\":\"info@mail.com\",\"emailsupport\":\"help@mail.com\",\"categories\":[{\"a\":1}],\"category\":1,\"department\":2,\"countries\":[{\"b\":1}],\"country\":\"AD\",\"inout\":0}";
    conf.as_bytes().to_vec()
}

fn marketplace_with_references() -> Pallet {
    let mut mp = Pallet::new();
    assert!(mp.create_iso_country(b"AD".to_vec(), b"Andorra".to_vec()).is_ok());
    assert!(mp.create_product_department(1, b"Electronics".to_vec()).is_ok());
    assert!(mp.create_product_category(1, 2, b"Phones".to_vec()).is_ok());
    mp
}

#[test]
fn iso_country_create_and_destroy() {
    let mut mp = Pallet::new();
    assert_eq!(
        mp.create_iso_country(b"A".to_vec(), b"Andorra".to_vec()),
        Err(Error::WrongLengthCountryCode)
    );
    assert_eq!(
        mp.create_iso_country(b"AD".to_vec(), b"An".to_vec()),
        Err(Error::CountryNameTooShort)
    );
    assert!(mp.create_iso_country(b"AD".to_vec(), b"Andorra".to_vec()).is_ok());
    assert_eq!(mp.get_iso_country(&b"AD".to_vec()), b"Andorra".to_vec());
    assert_eq!(mp.get_iso_country(&b"XX".to_vec()), b"".to_vec());
    assert_eq!(
        mp.last_event(),
        Some(&Event::MarketPlaceIsoCountryCreated(b"AD".to_vec(), b"Andorra".to_vec()))
    );
    assert_eq!(
        mp.create_iso_country(b"AD".to_vec(), b"Andorra".to_vec()),
        Err(Error::CountryCodeAlreadyPresent)
    );
    assert!(mp.destroy_iso_country(b"AD".to_vec()).is_ok());
    assert_eq!(mp.destroy_iso_country(b"AD".to_vec()), Err(Error::CountryCodeNotFound));
}

#[test]
fn department_and_category_lifecycle() {
    let mut mp = Pallet::new();
    assert_eq!(
        mp.create_product_department(0, b"Electronics".to_vec()),
        Err(Error::DepartmentUidCannotBeZero)
    );
    assert_eq!(
        mp.create_product_department(1, b"El".to_vec()),
        Err(Error::DepartmentDescriptionTooShort)
    );
    assert!(mp.create_product_department(1, b"Electronics".to_vec()).is_ok());
    assert_eq!(
        mp.create_product_category(1, 2, b"Ph".to_vec()),
        Err(Error::CategoryDescriptionTooShort)
    );
    assert_eq!(
        mp.create_product_category(9, 2, b"Phones".to_vec()),
        Err(Error::DepartmentNotFound)
    );
    assert!(mp.create_product_category(1, 2, b"Phones".to_vec()).is_ok());
    assert_eq!(
        mp.create_product_category(1, 2, b"Phones".to_vec()),
        Err(Error::ProductCategoryAlreadyPresent)
    );
    assert!(mp.destroy_product_category(1, 2).is_ok());
    assert_eq!(mp.destroy_product_category(1, 2), Err(Error::ProductCategoryNotFound));
    assert!(mp.destroy_product_department(1).is_ok());
    assert_eq!(mp.destroy_product_department(1), Err(Error::DepartmentNotFound));
}

#[test]
fn currency_create_requires_category() {
    let mut mp = Pallet::new();
    assert!(mp.create_iso_country(b"US".to_vec(), b"United States".to_vec()).is_ok());
    let crypto = b"{\"name\":\"Bitcoin\",\"category\":\"c\",\"blockchain\":\"Bitcoin\"}".to_vec();
    assert!(mp.create_currency(b"BTC".to_vec(), crypto.clone()).is_ok());
    let fiat = b"{\"name\":\"Dollars\",\"category\":\"f\",\"country\":\"US\"}".to_vec();
    assert!(mp.create_currency(b"USD".to_vec(), fiat).is_ok());
    let odd = b"{\"name\":\"Shells\",\"category\":\"x\"}".to_vec();
    assert_eq!(
        mp.create_currency(b"SHL".to_vec(), odd),
        Err(Error::CurrencyCategoryIswrong)
    );
    let fiat_unknown = b"{\"name\":\"Euros\",\"category\":\"f\",\"country\":\"XX\"}".to_vec();
    assert_eq!(
        mp.create_currency(b"EUR".to_vec(), fiat_unknown),
        Err(Error::CountryCodeNotFound)
    );
    assert_eq!(
        mp.create_currency(b"BTC".to_vec(), crypto),
        Err(Error::CurrencyCodeAlreadyPresent)
    );
    assert_eq!(
        mp.create_currency(b"TOOLONGCODE".to_vec(), b"{\"name\":\"x\"}".to_vec()),
        Err(Error::WrongLengthCurrencyCode)
    );
}

#[test]
fn create_update_seller_happy_path() {
    let mut mp = marketplace_with_references();
    let sender = vec![5u8; 32];
    let conf = seller_config();
    assert_eq!(mp.create_update_seller(sender.clone(), conf.clone()), Ok(()));
    assert_eq!(mp.get_seller(&sender), conf);
    assert_eq!(
        mp.last_event(),
        Some(&Event::MarketPlaceSellerCreated(sender.clone(), conf.clone()))
    );
    // updating one's own record passes again
    assert_eq!(mp.create_update_seller(sender.clone(), conf.clone()), Ok(()));
    // the seller can then be destroyed, once
    assert!(mp.destroy_seller(sender.clone()).is_ok());
    assert_eq!(mp.destroy_seller(sender), Err(Error::SellerDataNotFound));
}

#[test]
fn create_update_seller_error_paths() {
    let mut mp = marketplace_with_references();
    let sender = vec![5u8; 32];
    assert_eq!(
        mp.create_update_seller(sender.clone(), b"{\"a\":\"b\"}".to_vec()),
        Err(Error::ConfigurationTooShort)
    );
    assert_eq!(
        mp.create_update_seller(sender.clone(), b"this is not a json buffer".to_vec()),
        Err(Error::InvalidJson)
    );
    assert_eq!(
        mp.create_update_seller(
            sender.clone(),
            b"{\"sellertype\":9,\"name\":\"JohnStore\"}".to_vec()
        ),
        Err(Error::SellerTypeInvalid)
    );
    assert_eq!(
        mp.create_update_seller(
            sender.clone(),
            b"{\"sellertype\":1,\"name\":\"Jo\",\"city\":\"Sydney\"}".to_vec()
        ),
        Err(Error::SellerNameTooShort)
    );
    // a category that is not stored is refused
    let conf = String::from_utf8(seller_config()).unwrap().replace(
        "\"category\":1,\"department\":2",
        "\"category\":7,\"department\":7",
    );
    assert_eq!(
        mp.create_update_seller(sender, conf.into_bytes()),
        Err(Error::ProductCategoryNotFound)
    );
}

#[test]
fn seller_account_field_decodes_to_the_stored_key() {
    let mut mp = marketplace_with_references();
    let sender = vec![5u8; 32];
    // Base58 of the 33 bytes [7, 9, 9, ..., 9]: the record is stored under
    // bytes 1 through 32, that is [9; 32]
    let conf = String::from_utf8(seller_config()).unwrap().replace(
        "\"sellertype\":1",
        "\"sellertype\":1,\"selleraccount\":\"36DVFmETHt1qRFPjVWvBLyRZWwtQ5H2g3R2gBYsPmLfdJ\"",
    );
    assert_eq!(mp.create_update_seller(sender, conf.clone().into_bytes()), Ok(()));
    assert_eq!(
        mp.last_event(),
        Some(&Event::MarketPlaceSellerCreated(vec![9u8; 32], conf.into_bytes()))
    );
}

#[test]
fn seller_account_field_with_bad_base58_is_refused() {
    let mut mp = marketplace_with_references();
    let sender = vec![5u8; 32];
    // '0' is not a Base58 digit
    let conf = String::from_utf8(seller_config()).unwrap().replace(
        "\"sellertype\":1",
        "\"sellertype\":1,\"selleraccount\":\"00000\"",
    );
    assert_eq!(
        mp.create_update_seller(sender, conf.into_bytes()),
        Err(Error::SignerIsNotAuthorized)
    );
}

#[test]
fn seller_proxy_update_needs_authorization() {
    let mut mp = marketplace_with_references();
    let owner = vec![9u8; 32];
    let signer = vec![5u8; 32];
    // the owner stores a record that names the signer as proxy:
    // Base58 of the 33 bytes [7, 5, 5, ..., 5]
    let conf_with_proxy = String::from_utf8(seller_config()).unwrap().replace(
        "\"sellertype\":1",
        "\"sellertype\":1,\"proxyaccount\":\"35wp5C2bFWpeWh2jTmisfovUTyFZGamvmBQ1ZKMDNMLLU\"",
    );
    assert_eq!(mp.create_update_seller(owner.clone(), conf_with_proxy.into_bytes()), Ok(()));
    // the signer updates the owner's record through the selleraccount field
    let conf_update = String::from_utf8(seller_config()).unwrap().replace(
        "\"sellertype\":1",
        "\"sellertype\":1,\"selleraccount\":\"36DVFmETHt1qRFPjVWvBLyRZWwtQ5H2g3R2gBYsPmLfdJ\"",
    );
    assert_eq!(mp.create_update_seller(signer, conf_update.into_bytes()), Ok(()));
    // a third account without proxy authorization is refused
    let conf_third = String::from_utf8(seller_config()).unwrap().replace(
        "\"sellertype\":1",
        "\"sellertype\":1,\"selleraccount\":\"36DVFmETHt1qRFPjVWvBLyRZWwtQ5H2g3R2gBYsPmLfdJ\"",
    );
    assert_eq!(
        mp.create_update_seller(vec![1u8; 32], conf_third.into_bytes()),
        Err(Error::SignerIsNotAuthorized)
    );
}

#[test]
fn create_update_product_happy_path() {
    let mut mp = Pallet::new();
    let crypto = b"{\"name\":\"Bitcoin\",\"category\":\"c\",\"blockchain\":\"Bitcoin\"}".to_vec();
    assert!(mp.create_currency(b"BTC".to_vec(), crypto).is_ok());
    let long = "d".repeat(70);
    let conf = format!(
        "{{\"description\":\"GreatWidget9x\",\"longdescription\":\"{}\",\"price\":100,\
\"currency\":\"BTC\",\"media\":[{{\"description\":\"img\",\"filename\":\"a.jpg\",\
\"ipfs\":\"QmAAAAAAAAAAAAAAAAAAAAAAAAAAAAAA\"}}],\"upc\":\"12345678\"}}",
        long
    );
    let buf = conf.into_bytes();
    assert_eq!(mp.create_update_product(10, buf.clone()), Ok(()));
    assert_eq!(mp.last_event(), Some(&Event::MarketPlaceProductUpdated(10, buf.clone())));
    // updating the same product id passes again
    assert_eq!(mp.create_update_product(10, buf), Ok(()));
}

#[test]
fn create_update_product_error_paths() {
    let mut mp = Pallet::new();
    assert_eq!(
        mp.create_update_product(1, b"{\"a\":\"b\"}".to_vec()),
        Err(Error::ConfigurationTooShort)
    );
    assert_eq!(
        mp.create_update_product(1, b"{\"description\":\"short\",\"x\":\"1234\"}".to_vec()),
        Err(Error::ProductDescriptionTooShort)
    );
    let no_price = b"{\"description\":\"GreatWidget9x\",\"longdescription\":\"dddddddddddddddddddddddddddddddddddddddddddddddddddddddddddddddddddddd\"}".to_vec();
    assert_eq!(mp.create_update_product(1, no_price), Err(Error::ProductPriceCannotBeZero));
}

#[test]
fn login_data_lifecycle() {
    let mut mp = Pallet::new();
    let email = b"hash-of-the-email".to_vec();
    let pwd = b"hash-of-the-pwd".to_vec();
    let pwd2 = b"hash-of-the-pwd-2".to_vec();
    let account = vec![5u8; 32];
    assert_eq!(
        mp.create_login_data(b"short".to_vec(), pwd.clone(), account.clone(), b"seed".to_vec()),
        Err(Error::WrongLengthEmailHash)
    );
    assert!(mp.create_login_data(email.clone(), pwd.clone(), account.clone(), b"seed".to_vec()).is_ok());
    assert_eq!(
        mp.create_login_data(email.clone(), pwd, account.clone(), b"seed".to_vec()),
        Err(Error::EmailHashAlreadyPresent)
    );
    // only the owner may change the password
    assert_eq!(
        mp.change_pwd_login_data(vec![1u8; 32], email.clone(), pwd2.clone()),
        Err(Error::SignerIsNotAuthorized)
    );
    assert!(mp.change_pwd_login_data(account.clone(), email.clone(), pwd2).is_ok());
    // and only the owner may destroy it
    assert_eq!(
        mp.destroy_login_data(vec![1u8; 32], email.clone()),
        Err(Error::SignerIsNotAuthorized)
    );
    assert!(mp.destroy_login_data(account, email.clone()).is_ok());
    assert_eq!(
        mp.destroy_login_data(vec![5u8; 32], email),
        Err(Error::EmailHashNotFound)
    );
}

#[test]
fn shipper_and_rates_lifecycle() {
    let mut mp = Pallet::new();
    assert!(mp.create_iso_country(b"AE".to_vec(), b"Emirates".to_vec()).is_ok());
    assert!(mp.create_iso_country(b"LR".to_vec(), b"Liberia".to_vec()).is_ok());
    let crypto = b"{\"name\":\"Bitcoin\",\"category\":\"c\",\"blockchain\":\"Bitcoin\"}".to_vec();
    assert!(mp.create_currency(b"BTC".to_vec(), crypto).is_ok());
    let shipper = b"{\"name\":\"DHL\",\"website\":\"www.dhl.com\",\"origincountries\":[\"AE\"]}".to_vec();
    assert_eq!(mp.create_shipper(1, shipper), Ok(()));
    let shipper_bad = b"{\"name\":\"TNT\",\"website\":\"www.tnt.com\",\"origincountries\":[\"XX\"]}".to_vec();
    assert_eq!(mp.create_shipper(2, shipper_bad), Err(Error::OriginCountryNotPresent));
    let rates = "{\"shipperid\":1,\"origincountry\":\"AE\",\"currency\":\"BTC\",\"rates\":[{\"destination\":\"LR\",\"fromkg\":0,\"tokg\":1,\"rate\":10}]}".as_bytes().to_vec();
    assert_eq!(mp.create_shipping_rates(3, rates), Ok(()));
    assert!(mp.destroy_shipping_rates(3).is_ok());
    assert!(mp.destroy_shipper(1).is_ok());
    assert_eq!(mp.destroy_shipper(1), Err(Error::ShipperNotFound));
}

#[test]
fn product_size_records_need_their_fields() {
    let mut mp = Pallet::new();
    let good = b"{\"code\":\"XL\",\"description\":\"Extra Large\",\"area\":\"Europe\"}".to_vec();
    assert_eq!(mp.create_product_size(1, good), Ok(()));
    let missing_area = b"{\"code\":\"XL\",\"description\":\"Extra Large\"}".to_vec();
    assert_eq!(mp.create_product_size(2, missing_area), Err(Error::SizeAreaIsMissing));
    assert_eq!(mp.create_product_size(0, b"{\"a\":\"b\"}".to_vec()), Err(Error::SizeUidCannotBeZero));
    assert!(mp.destroy_product_size(1).is_ok());
    assert_eq!(mp.destroy_product_size(1), Err(Error::SizeNotFound));
}

#[test]
fn brand_and_model_need_their_parents() {
    let mut mp = Pallet::new();
    let manufacturer = b"{\"name\":\"Samsung\",\"website\":\"https://www.samsung.com\"}".to_vec();
    assert_eq!(mp.create_manufacturer(7, manufacturer), Ok(()));
    assert_eq!(
        mp.create_brand(1, b"{\"name\":\"Galaxy\",\"manufacturer\":9}".to_vec()),
        Err(Error::ManufacturerNotFound)
    );
    assert_eq!(mp.create_brand(1, b"{\"name\":\"Galaxy\",\"manufacturer\":7}".to_vec()), Ok(()));
    assert_eq!(
        mp.create_product_model(2, b"{\"name\":\"A1\",\"brand\":9}".to_vec()),
        Err(Error::BrandNotFound)
    );
    assert_eq!(mp.create_product_model(2, b"{\"name\":\"A1\",\"brand\":1}".to_vec()), Ok(()));
    assert!(mp.destroy_product_model(2).is_ok());
    assert!(mp.destroy_brand(1).is_ok());
    assert!(mp.destroy_manufacturer(7).is_ok());
}

#[test]
fn color_lifecycle() {
    let mut mp = Pallet::new();
    assert_eq!(mp.create_product_color(0, b"red".to_vec()), Err(Error::ColorUidCannotBeZero));
    assert_eq!(mp.create_product_color(1, b"r".to_vec()), Err(Error::ColorDescriptionTooShort));
    assert!(mp.create_product_color(1, b"red".to_vec()).is_ok());
    assert_eq!(mp.create_product_color(1, b"red".to_vec()), Err(Error::ColorAlreadyPresent));
    assert!(mp.destroy_product_color(1).is_ok());
    assert_eq!(mp.destroy_product_color(1), Err(Error::ColorNotFound));
}

#[test]
fn dialcode_lifecycle() {
    let mut mp = Pallet::new();
    assert_eq!(
        mp.create_dialcode_country(b"A".to_vec(), b"376".to_vec()),
        Err(Error::WrongLengthCountryCode)
    );
    assert_eq!(
        mp.create_dialcode_country(b"AD".to_vec(), b"3".to_vec()),
        Err(Error::DialcodeTooShort)
    );
    assert!(mp.create_dialcode_country(b"AD".to_vec(), b"376".to_vec()).is_ok());
    assert_eq!(
        mp.create_dialcode_country(b"AD".to_vec(), b"376".to_vec()),
        Err(Error::CountryCodeAlreadyPresent)
    );
    assert!(mp.destroy_dialcode_country(b"AD".to_vec()).is_ok());
    assert_eq!(mp.destroy_dialcode_country(b"AD".to_vec()), Err(Error::CountryCodeNotFound));
}
