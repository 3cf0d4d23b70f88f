//! The catalog: every scalar function the adapter registers, in
//! registration order.
//!
//! The catalog is an immutable table, built once at load time and
//! consumed by one loop. `catalog_spec` lists each entry — SQL-callable
//! name and native function — and `catalog` builds exactly that table.
//! The table is long, so it is stated and built in three consecutive
//! segments. The catalog's two-parameter coordinate-range functions
//! compute on raw floats, which this library does not hold; the embedding
//! layer registers them directly, so they do not appear here.

use vstd::prelude::*;

use crate::builder::{register_scalar, registered_as};
use crate::generators::{BoolGen, FloatGen, IntGen, TextGen};
use crate::payload::NativeFn;
use crate::registry::{EngineRegistry, RegistrationError};

verus! {

/// One catalog entry: the SQL-callable name and the native function
/// registered under it.
pub struct CatalogEntry {
    pub name: String,
    pub native: NativeFn,
}

/// Segment one of `catalog_spec`, in registration order.
pub open spec fn catalog_spec_one() -> Seq<(Seq<char>, NativeFn)> {
    seq![
        ("fakeit_address_street"@, NativeFn::Text0(TextGen::AddressStreet)),
        ("fakeit_address_city"@, NativeFn::Text0(TextGen::AddressCity)),
        ("fakeit_address_state"@, NativeFn::Text0(TextGen::AddressState)),
        ("fakeit_address_zip"@, NativeFn::Text0(TextGen::AddressZip)),
        ("fakeit_address_country"@, NativeFn::Text0(TextGen::AddressCountry)),
        ("fakeit_address_street_number"@, NativeFn::Text0(TextGen::AddressStreetNumber)),
        ("fakeit_address_street_prefix"@, NativeFn::Text0(TextGen::AddressStreetPrefix)),
        ("fakeit_address_street_name"@, NativeFn::Text0(TextGen::AddressStreetName)),
        ("fakeit_address_street_suffix"@, NativeFn::Text0(TextGen::AddressStreetSuffix)),
        ("fakeit_address_state_abr"@, NativeFn::Text0(TextGen::AddressStateAbr)),
        ("fakeit_address_country_abr"@, NativeFn::Text0(TextGen::AddressCountryAbr)),
        ("fakeit_address_latitude"@, NativeFn::Float0(FloatGen::AddressLatitude)),
        ("fakeit_address_longitude"@, NativeFn::Float0(FloatGen::AddressLongitude)),
        ("fakeit_name_first"@, NativeFn::Text0(TextGen::NameFirst)),
        ("fakeit_name_last"@, NativeFn::Text0(TextGen::NameLast)),
        ("fakeit_name_full"@, NativeFn::Text0(TextGen::NameFull)),
        ("fakeit_name_prefix"@, NativeFn::Text0(TextGen::NamePrefix)),
        ("fakeit_name_suffix"@, NativeFn::Text0(TextGen::NameSuffix)),
        ("fakeit_company_company"@, NativeFn::Text0(TextGen::Company)),
        ("fakeit_company_bs"@, NativeFn::Text0(TextGen::CompanyBs)),
        ("fakeit_company_company_suffix"@, NativeFn::Text0(TextGen::CompanySuffix)),
        ("fakeit_company_buzzword"@, NativeFn::Text0(TextGen::CompanyBuzzword)),
        ("fakeit_contact_email"@, NativeFn::Text0(TextGen::ContactEmail)),
        ("fakeit_contact_phone"@, NativeFn::Text0(TextGen::ContactPhone)),
        ("fakeit_contact_phone_formatted"@, NativeFn::Text0(TextGen::ContactPhoneFormatted)),
        ("fakeit_internet_ipv4_address"@, NativeFn::Text0(TextGen::InternetIpv4Address)),
        ("fakeit_internet_ipv6_address"@, NativeFn::Text0(TextGen::InternetIpv6Address)),
        ("fakeit_internet_domain_name"@, NativeFn::Text0(TextGen::InternetDomainName)),
        ("fakeit_internet_domain_suffix"@, NativeFn::Text0(TextGen::InternetDomainSuffix)),
        ("fakeit_internet_username"@, NativeFn::Text0(TextGen::InternetUsername)),
        ("fakeit_internet_http_method"@, NativeFn::Text0(TextGen::InternetHttpMethod)),
        ("fakeit_internet_mac_address"@, NativeFn::Text0(TextGen::InternetMacAddress)),
        ("fakeit_uuid_v1"@, NativeFn::Text0(TextGen::UniqueUuidV1)),
        ("fakeit_uuid_v4"@, NativeFn::Text0(TextGen::UniqueUuidV4)),
        ("fakeit_animal_pet_name"@, NativeFn::Text0(TextGen::AnimalPetName)),
        ("fakeit_animal_animal"@, NativeFn::Text0(TextGen::Animal)),
        ("fakeit_animal_farm"@, NativeFn::Text0(TextGen::AnimalFarm)),
        ("fakeit_animal_cat"@, NativeFn::Text0(TextGen::AnimalCat)),
        ("fakeit_animal_dog"@, NativeFn::Text0(TextGen::AnimalDog)),
        ("fakeit_beer_name"@, NativeFn::Text0(TextGen::BeerName)),
    ]
}

/// Build segment one of the catalog: exactly the entries of
/// `catalog_spec_one`, in order.
#[verifier::rlimit(100)]
fn catalog_part_one() -> (entries: Vec<CatalogEntry>)
    ensures
        entries@.len() == catalog_spec_one().len(),
        forall|i: int|
            0 <= i < entries@.len() ==> (#[trigger] entries@[i]).name@ == catalog_spec_one()[i].0
                && entries@[i].native == catalog_spec_one()[i].1,
{
    let mut v: Vec<CatalogEntry> = Vec::new();
    v.push(CatalogEntry { name: String::from_str("fakeit_address_street"), native: NativeFn::Text0(TextGen::AddressStreet) });
    v.push(CatalogEntry { name: String::from_str("fakeit_address_city"), native: NativeFn::Text0(TextGen::AddressCity) });
    v.push(CatalogEntry { name: String::from_str("fakeit_address_state"), native: NativeFn::Text0(TextGen::AddressState) });
    v.push(CatalogEntry { name: String::from_str("fakeit_address_zip"), native: NativeFn::Text0(TextGen::AddressZip) });
    v.push(CatalogEntry { name: String::from_str("fakeit_address_country"), native: NativeFn::Text0(TextGen::AddressCountry) });
    v.push(CatalogEntry { name: String::from_str("fakeit_address_street_number"), native: NativeFn::Text0(TextGen::AddressStreetNumber) });
    v.push(CatalogEntry { name: String::from_str("fakeit_address_street_prefix"), native: NativeFn::Text0(TextGen::AddressStreetPrefix) });
    v.push(CatalogEntry { name: String::from_str("fakeit_address_street_name"), native: NativeFn::Text0(TextGen::AddressStreetName) });
    v.push(CatalogEntry { name: String::from_str("fakeit_address_street_suffix"), native: NativeFn::Text0(TextGen::AddressStreetSuffix) });
    v.push(CatalogEntry { name: String::from_str("fakeit_address_state_abr"), native: NativeFn::Text0(TextGen::AddressStateAbr) });
    v.push(CatalogEntry { name: String::from_str("fakeit_address_country_abr"), native: NativeFn::Text0(TextGen::AddressCountryAbr) });
    v.push(CatalogEntry { name: String::from_str("fakeit_address_latitude"), native: NativeFn::Float0(FloatGen::AddressLatitude) });
    v.push(CatalogEntry { name: String::from_str("fakeit_address_longitude"), native: NativeFn::Float0(FloatGen::AddressLongitude) });
    v.push(CatalogEntry { name: String::from_str("fakeit_name_first"), native: NativeFn::Text0(TextGen::NameFirst) });
    v.push(CatalogEntry { name: String::from_str("fakeit_name_last"), native: NativeFn::Text0(TextGen::NameLast) });
    v.push(CatalogEntry { name: String::from_str("fakeit_name_full"), native: NativeFn::Text0(TextGen::NameFull) });
    v.push(CatalogEntry { name: String::from_str("fakeit_name_prefix"), native: NativeFn::Text0(TextGen::NamePrefix) });
    v.push(CatalogEntry { name: String::from_str("fakeit_name_suffix"), native: NativeFn::Text0(TextGen::NameSuffix) });
    v.push(CatalogEntry { name: String::from_str("fakeit_company_company"), native: NativeFn::Text0(TextGen::Company) });
    v.push(CatalogEntry { name: String::from_str("fakeit_company_bs"), native: NativeFn::Text0(TextGen::CompanyBs) });
    v.push(CatalogEntry { name: String::from_str("fakeit_company_company_suffix"), native: NativeFn::Text0(TextGen::CompanySuffix) });
    v.push(CatalogEntry { name: String::from_str("fakeit_company_buzzword"), native: NativeFn::Text0(TextGen::CompanyBuzzword) });
    v.push(CatalogEntry { name: String::from_str("fakeit_contact_email"), native: NativeFn::Text0(TextGen::ContactEmail) });
    v.push(CatalogEntry { name: String::from_str("fakeit_contact_phone"), native: NativeFn::Text0(TextGen::ContactPhone) });
    v.push(CatalogEntry { name: String::from_str("fakeit_contact_phone_formatted"), native: NativeFn::Text0(TextGen::ContactPhoneFormatted) });
    v.push(CatalogEntry { name: String::from_str("fakeit_internet_ipv4_address"), native: NativeFn::Text0(TextGen::InternetIpv4Address) });
    v.push(CatalogEntry { name: String::from_str("fakeit_internet_ipv6_address"), native: NativeFn::Text0(TextGen::InternetIpv6Address) });
    v.push(CatalogEntry { name: String::from_str("fakeit_internet_domain_name"), native: NativeFn::Text0(TextGen::InternetDomainName) });
    v.push(CatalogEntry { name: String::from_str("fakeit_internet_domain_suffix"), native: NativeFn::Text0(TextGen::InternetDomainSuffix) });
    v.push(CatalogEntry { name: String::from_str("fakeit_internet_username"), native: NativeFn::Text0(TextGen::InternetUsername) });
    v.push(CatalogEntry { name: String::from_str("fakeit_internet_http_method"), native: NativeFn::Text0(TextGen::InternetHttpMethod) });
    v.push(CatalogEntry { name: String::from_str("fakeit_internet_mac_address"), native: NativeFn::Text0(TextGen::InternetMacAddress) });
    v.push(CatalogEntry { name: String::from_str("fakeit_uuid_v1"), native: NativeFn::Text0(TextGen::UniqueUuidV1) });
    v.push(CatalogEntry { name: String::from_str("fakeit_uuid_v4"), native: NativeFn::Text0(TextGen::UniqueUuidV4) });
    v.push(CatalogEntry { name: String::from_str("fakeit_animal_pet_name"), native: NativeFn::Text0(TextGen::AnimalPetName) });
    v.push(CatalogEntry { name: String::from_str("fakeit_animal_animal"), native: NativeFn::Text0(TextGen::Animal) });
    v.push(CatalogEntry { name: String::from_str("fakeit_animal_farm"), native: NativeFn::Text0(TextGen::AnimalFarm) });
    v.push(CatalogEntry { name: String::from_str("fakeit_animal_cat"), native: NativeFn::Text0(TextGen::AnimalCat) });
    v.push(CatalogEntry { name: String::from_str("fakeit_animal_dog"), native: NativeFn::Text0(TextGen::AnimalDog) });
    v.push(CatalogEntry { name: String::from_str("fakeit_beer_name"), native: NativeFn::Text0(TextGen::BeerName) });
    v
}

/// Segment two of `catalog_spec`, in registration order.
pub open spec fn catalog_spec_two() -> Seq<(Seq<char>, NativeFn)> {
    seq![
        ("fakeit_beer_style"@, NativeFn::Text0(TextGen::BeerStyle)),
        ("fakeit_beer_hop"@, NativeFn::Text0(TextGen::BeerHop)),
        ("fakeit_beer_yeast"@, NativeFn::Text0(TextGen::BeerYeast)),
        ("fakeit_beer_malt"@, NativeFn::Text0(TextGen::BeerMalt)),
        ("fakeit_beer_ibu"@, NativeFn::Text0(TextGen::BeerIbu)),
        ("fakeit_beer_alcohol"@, NativeFn::Text0(TextGen::BeerAlcohol)),
        ("fakeit_beer_blg"@, NativeFn::Text0(TextGen::BeerBlg)),
        ("fakeit_color_full"@, NativeFn::Text0(TextGen::ColorFull)),
        ("fakeit_color_hex"@, NativeFn::Text0(TextGen::ColorHex)),
        ("fakeit_color_safe"@, NativeFn::Text0(TextGen::ColorSafe)),
        ("fakeit_color_rgb"@, NativeFn::Text0(TextGen::ColorRgb)),
        ("fakeit_currency_short"@, NativeFn::Text0(TextGen::CurrencyShort)),
        ("fakeit_currency_long"@, NativeFn::Text0(TextGen::CurrencyLong)),
        ("fakeit_currency_price"@, NativeFn::Text0(TextGen::CurrencyPrice)),
        ("fakeit_datetime_month"@, NativeFn::Text0(TextGen::DatetimeMonth)),
        ("fakeit_datetime_day"@, NativeFn::Text0(TextGen::DatetimeDay)),
        ("fakeit_datetime_week_day"@, NativeFn::Text0(TextGen::DatetimeWeekDay)),
        ("fakeit_datetime_timezone"@, NativeFn::Text0(TextGen::DatetimeTimezone)),
        ("fakeit_datetime_timezone_full"@, NativeFn::Text0(TextGen::DatetimeTimezoneFull)),
        ("fakeit_datetime_timezone_abv"@, NativeFn::Text0(TextGen::DatetimeTimezoneAbv)),
        ("fakeit_datetime_year"@, NativeFn::Text0(TextGen::DatetimeYear)),
        ("fakeit_datetime_hour"@, NativeFn::Text0(TextGen::DatetimeHour)),
        ("fakeit_datetime_minute"@, NativeFn::Text0(TextGen::DatetimeMinute)),
        ("fakeit_datetime_second"@, NativeFn::Text0(TextGen::DatetimeSecond)),
        ("fakeit_datetime_nanosecond"@, NativeFn::Text0(TextGen::DatetimeNanosecond)),
        ("fakeit_datetime_timezone_offset"@, NativeFn::Text0(TextGen::DatetimeTimezoneOffset)),
        ("fakeit_datetime_date"@, NativeFn::Text0(TextGen::DateTimeDate)),
        ("fakeit_file_extension"@, NativeFn::Text0(TextGen::FileExtension)),
        ("fakeit_file_mime_type"@, NativeFn::Text0(TextGen::FileMimeType)),
        ("fakeit_hacker_phrase"@, NativeFn::Text0(TextGen::HackerPhrase)),
        ("fakeit_hacker_abbreviation"@, NativeFn::Text0(TextGen::HackerAbbreviation)),
        ("fakeit_hacker_adjective"@, NativeFn::Text0(TextGen::HackerAdjective)),
        ("fakeit_hacker_noun"@, NativeFn::Text0(TextGen::HackerNoun)),
        ("fakeit_hacker_verb"@, NativeFn::Text0(TextGen::HackerVerb)),
        ("fakeit_hacker_ingverb"@, NativeFn::Text0(TextGen::HackerIngverb)),
        ("fakeit_hipster_word"@, NativeFn::Text0(TextGen::HipsterWord)),
        ("fakeit_hipster_sentence"@, NativeFn::Text0(TextGen::HipsterSentence)),
        ("fakeit_hipster_paragraph"@, NativeFn::Text0(TextGen::HipsterParagraph)),
        ("fakeit_image_url"@, NativeFn::Text0(TextGen::ImageUrl)),
        ("fakeit_job_title"@, NativeFn::Text0(TextGen::JobTitle)),
    ]
}

/// Build segment two of the catalog: exactly the entries of
/// `catalog_spec_two`, in order.
#[verifier::rlimit(100)]
fn catalog_part_two() -> (entries: Vec<CatalogEntry>)
    ensures
        entries@.len() == catalog_spec_two().len(),
        forall|i: int|
            0 <= i < entries@.len() ==> (#[trigger] entries@[i]).name@ == catalog_spec_two()[i].0
                && entries@[i].native == catalog_spec_two()[i].1,
{
    let mut v: Vec<CatalogEntry> = Vec::new();
    v.push(CatalogEntry { name: String::from_str("fakeit_beer_style"), native: NativeFn::Text0(TextGen::BeerStyle) });
    v.push(CatalogEntry { name: String::from_str("fakeit_beer_hop"), native: NativeFn::Text0(TextGen::BeerHop) });
    v.push(CatalogEntry { name: String::from_str("fakeit_beer_yeast"), native: NativeFn::Text0(TextGen::BeerYeast) });
    v.push(CatalogEntry { name: String::from_str("fakeit_beer_malt"), native: NativeFn::Text0(TextGen::BeerMalt) });
    v.push(CatalogEntry { name: String::from_str("fakeit_beer_ibu"), native: NativeFn::Text0(TextGen::BeerIbu) });
    v.push(CatalogEntry { name: String::from_str("fakeit_beer_alcohol"), native: NativeFn::Text0(TextGen::BeerAlcohol) });
    v.push(CatalogEntry { name: String::from_str("fakeit_beer_blg"), native: NativeFn::Text0(TextGen::BeerBlg) });
    v.push(CatalogEntry { name: String::from_str("fakeit_color_full"), native: NativeFn::Text0(TextGen::ColorFull) });
    v.push(CatalogEntry { name: String::from_str("fakeit_color_hex"), native: NativeFn::Text0(TextGen::ColorHex) });
    v.push(CatalogEntry { name: String::from_str("fakeit_color_safe"), native: NativeFn::Text0(TextGen::ColorSafe) });
    v.push(CatalogEntry { name: String::from_str("fakeit_color_rgb"), native: NativeFn::Text0(TextGen::ColorRgb) });
    v.push(CatalogEntry { name: String::from_str("fakeit_currency_short"), native: NativeFn::Text0(TextGen::CurrencyShort) });
    v.push(CatalogEntry { name: String::from_str("fakeit_currency_long"), native: NativeFn::Text0(TextGen::CurrencyLong) });
    v.push(CatalogEntry { name: String::from_str("fakeit_currency_price"), native: NativeFn::Text0(TextGen::CurrencyPrice) });
    v.push(CatalogEntry { name: String::from_str("fakeit_datetime_month"), native: NativeFn::Text0(TextGen::DatetimeMonth) });
    v.push(CatalogEntry { name: String::from_str("fakeit_datetime_day"), native: NativeFn::Text0(TextGen::DatetimeDay) });
    v.push(CatalogEntry { name: String::from_str("fakeit_datetime_week_day"), native: NativeFn::Text0(TextGen::DatetimeWeekDay) });
    v.push(CatalogEntry { name: String::from_str("fakeit_datetime_timezone"), native: NativeFn::Text0(TextGen::DatetimeTimezone) });
    v.push(CatalogEntry { name: String::from_str("fakeit_datetime_timezone_full"), native: NativeFn::Text0(TextGen::DatetimeTimezoneFull) });
    v.push(CatalogEntry { name: String::from_str("fakeit_datetime_timezone_abv"), native: NativeFn::Text0(TextGen::DatetimeTimezoneAbv) });
    v.push(CatalogEntry { name: String::from_str("fakeit_datetime_year"), native: NativeFn::Text0(TextGen::DatetimeYear) });
    v.push(CatalogEntry { name: String::from_str("fakeit_datetime_hour"), native: NativeFn::Text0(TextGen::DatetimeHour) });
    v.push(CatalogEntry { name: String::from_str("fakeit_datetime_minute"), native: NativeFn::Text0(TextGen::DatetimeMinute) });
    v.push(CatalogEntry { name: String::from_str("fakeit_datetime_second"), native: NativeFn::Text0(TextGen::DatetimeSecond) });
    v.push(CatalogEntry { name: String::from_str("fakeit_datetime_nanosecond"), native: NativeFn::Text0(TextGen::DatetimeNanosecond) });
    v.push(CatalogEntry { name: String::from_str("fakeit_datetime_timezone_offset"), native: NativeFn::Text0(TextGen::DatetimeTimezoneOffset) });
    v.push(CatalogEntry { name: String::from_str("fakeit_datetime_date"), native: NativeFn::Text0(TextGen::DateTimeDate) });
    v.push(CatalogEntry { name: String::from_str("fakeit_file_extension"), native: NativeFn::Text0(TextGen::FileExtension) });
    v.push(CatalogEntry { name: String::from_str("fakeit_file_mime_type"), native: NativeFn::Text0(TextGen::FileMimeType) });
    v.push(CatalogEntry { name: String::from_str("fakeit_hacker_phrase"), native: NativeFn::Text0(TextGen::HackerPhrase) });
    v.push(CatalogEntry { name: String::from_str("fakeit_hacker_abbreviation"), native: NativeFn::Text0(TextGen::HackerAbbreviation) });
    v.push(CatalogEntry { name: String::from_str("fakeit_hacker_adjective"), native: NativeFn::Text0(TextGen::HackerAdjective) });
    v.push(CatalogEntry { name: String::from_str("fakeit_hacker_noun"), native: NativeFn::Text0(TextGen::HackerNoun) });
    v.push(CatalogEntry { name: String::from_str("fakeit_hacker_verb"), native: NativeFn::Text0(TextGen::HackerVerb) });
    v.push(CatalogEntry { name: String::from_str("fakeit_hacker_ingverb"), native: NativeFn::Text0(TextGen::HackerIngverb) });
    v.push(CatalogEntry { name: String::from_str("fakeit_hipster_word"), native: NativeFn::Text0(TextGen::HipsterWord) });
    v.push(CatalogEntry { name: String::from_str("fakeit_hipster_sentence"), native: NativeFn::Text0(TextGen::HipsterSentence) });
    v.push(CatalogEntry { name: String::from_str("fakeit_hipster_paragraph"), native: NativeFn::Text0(TextGen::HipsterParagraph) });
    v.push(CatalogEntry { name: String::from_str("fakeit_image_url"), native: NativeFn::Text0(TextGen::ImageUrl) });
    v.push(CatalogEntry { name: String::from_str("fakeit_job_title"), native: NativeFn::Text0(TextGen::JobTitle) });
    v
}

/// Segment three of `catalog_spec`, in registration order.
pub open spec fn catalog_spec_three() -> Seq<(Seq<char>, NativeFn)> {
    seq![
        ("fakeit_job_descriptor"@, NativeFn::Text0(TextGen::JobDescriptor)),
        ("fakeit_job_level"@, NativeFn::Text0(TextGen::JobLevel)),
        ("fakeit_language_random"@, NativeFn::Text0(TextGen::LanguageRandom)),
        ("fakeit_language_abbreviation"@, NativeFn::Text0(TextGen::LanguageAbbreviation)),
        ("fakeit_language_programming"@, NativeFn::Text0(TextGen::LanguageProgramming)),
        ("fakeit_log_level_general"@, NativeFn::Text0(TextGen::LogLevelGeneral)),
        ("fakeit_log_level_syslog"@, NativeFn::Text0(TextGen::LogLevelSyslog)),
        ("fakeit_log_level_apache"@, NativeFn::Text0(TextGen::LogLevelApache)),
        ("fakeit_password_generate"@, NativeFn::Text0(TextGen::PasswordGenerate)),
        ("fakeit_payment_credit_card_type"@, NativeFn::Text0(TextGen::PaymentCreditCardType)),
        ("fakeit_payment_credit_card_number"@, NativeFn::Text0(TextGen::PaymentCreditCardNumber)),
        ("fakeit_payment_credit_card_exp"@, NativeFn::Text0(TextGen::PaymentCreditCardExp)),
        ("fakeit_payment_credit_card_cvv"@, NativeFn::Text0(TextGen::PaymentCreditCardCvv)),
        ("fakeit_payment_credit_card_luhn_number"@, NativeFn::Text0(TextGen::PaymentCreditCardLuhnNumber)),
        ("fakeit_person_ssn"@, NativeFn::Text0(TextGen::PersonSsn)),
        ("fakeit_person_gender"@, NativeFn::Text0(TextGen::PersonGender)),
        ("fakeit_user_agent_chrome"@, NativeFn::Text0(TextGen::UserAgentChrome)),
        ("fakeit_user_agent_firefox"@, NativeFn::Text0(TextGen::UserAgentFirefox)),
        ("fakeit_user_agent_safari"@, NativeFn::Text0(TextGen::UserAgentSafari)),
        ("fakeit_user_agent_opera"@, NativeFn::Text0(TextGen::UserAgentOpera)),
        ("fakeit_user_agent_linux_platform_token"@, NativeFn::Text0(TextGen::UserAgentLinuxPlatformToken)),
        ("fakeit_user_agent_mac_platform_token"@, NativeFn::Text0(TextGen::UserAgentMacPlatformToken)),
        ("fakeit_user_agent_windows_platform_token"@, NativeFn::Text0(TextGen::UserAgentWindowsPlatformToken)),
        ("fakeit_user_agent_random_platform"@, NativeFn::Text0(TextGen::UserAgentRandomPlatform)),
        ("fakeit_vehicle_vehicle_type"@, NativeFn::Text0(TextGen::VehicleType)),
        ("fakeit_vehicle_fuel"@, NativeFn::Text0(TextGen::VehicleFuel)),
        ("fakeit_vehicle_transmission_gear"@, NativeFn::Text0(TextGen::VehicleTransmissionGear)),
        ("fakeit_vehicle_car_maker"@, NativeFn::Text0(TextGen::VehicleCarMaker)),
        ("fakeit_vehicle_car_model"@, NativeFn::Text0(TextGen::VehicleCarModel)),
        ("fakeit_words_word"@, NativeFn::Text0(TextGen::WordsWord)),
        ("fakeit_words_sentence"@, NativeFn::Text0(TextGen::WordsSentence)),
        ("fakeit_words_paragraph"@, NativeFn::Text0(TextGen::WordsParagraph)),
        ("fakeit_words_question"@, NativeFn::Text0(TextGen::WordsQuestion)),
        ("fakeit_words_quote"@, NativeFn::Text0(TextGen::WordsQuote)),
        ("fakeit_generator_generate"@, NativeFn::Text0(TextGen::GeneratorGenerate)),
        ("fakeit_bool"@, NativeFn::Bool0(BoolGen::Random)),
        ("fakeit_status_code_simple"@, NativeFn::Integer0(IntGen::StatusCodeSimple)),
        ("fakeit_status_code_general"@, NativeFn::Integer0(IntGen::StatusCodeGeneral)),
    ]
}

/// Build segment three of the catalog: exactly the entries of
/// `catalog_spec_three`, in order.
#[verifier::rlimit(100)]
fn catalog_part_three() -> (entries: Vec<CatalogEntry>)
    ensures
        entries@.len() == catalog_spec_three().len(),
        forall|i: int|
            0 <= i < entries@.len() ==> (#[trigger] entries@[i]).name@ == catalog_spec_three()[i].0
                && entries@[i].native == catalog_spec_three()[i].1,
{
    let mut v: Vec<CatalogEntry> = Vec::new();
    v.push(CatalogEntry { name: String::from_str("fakeit_job_descriptor"), native: NativeFn::Text0(TextGen::JobDescriptor) });
    v.push(CatalogEntry { name: String::from_str("fakeit_job_level"), native: NativeFn::Text0(TextGen::JobLevel) });
    v.push(CatalogEntry { name: String::from_str("fakeit_language_random"), native: NativeFn::Text0(TextGen::LanguageRandom) });
    v.push(CatalogEntry { name: String::from_str("fakeit_language_abbreviation"), native: NativeFn::Text0(TextGen::LanguageAbbreviation) });
    v.push(CatalogEntry { name: String::from_str("fakeit_language_programming"), native: NativeFn::Text0(TextGen::LanguageProgramming) });
    v.push(CatalogEntry { name: String::from_str("fakeit_log_level_general"), native: NativeFn::Text0(TextGen::LogLevelGeneral) });
    v.push(CatalogEntry { name: String::from_str("fakeit_log_level_syslog"), native: NativeFn::Text0(TextGen::LogLevelSyslog) });
    v.push(CatalogEntry { name: String::from_str("fakeit_log_level_apache"), native: NativeFn::Text0(TextGen::LogLevelApache) });
    v.push(CatalogEntry { name: String::from_str("fakeit_password_generate"), native: NativeFn::Text0(TextGen::PasswordGenerate) });
    v.push(CatalogEntry { name: String::from_str("fakeit_payment_credit_card_type"), native: NativeFn::Text0(TextGen::PaymentCreditCardType) });
    v.push(CatalogEntry { name: String::from_str("fakeit_payment_credit_card_number"), native: NativeFn::Text0(TextGen::PaymentCreditCardNumber) });
    v.push(CatalogEntry { name: String::from_str("fakeit_payment_credit_card_exp"), native: NativeFn::Text0(TextGen::PaymentCreditCardExp) });
    v.push(CatalogEntry { name: String::from_str("fakeit_payment_credit_card_cvv"), native: NativeFn::Text0(TextGen::PaymentCreditCardCvv) });
    v.push(CatalogEntry { name: String::from_str("fakeit_payment_credit_card_luhn_number"), native: NativeFn::Text0(TextGen::PaymentCreditCardLuhnNumber) });
    v.push(CatalogEntry { name: String::from_str("fakeit_person_ssn"), native: NativeFn::Text0(TextGen::PersonSsn) });
    v.push(CatalogEntry { name: String::from_str("fakeit_person_gender"), native: NativeFn::Text0(TextGen::PersonGender) });
    v.push(CatalogEntry { name: String::from_str("fakeit_user_agent_chrome"), native: NativeFn::Text0(TextGen::UserAgentChrome) });
    v.push(CatalogEntry { name: String::from_str("fakeit_user_agent_firefox"), native: NativeFn::Text0(TextGen::UserAgentFirefox) });
    v.push(CatalogEntry { name: String::from_str("fakeit_user_agent_safari"), native: NativeFn::Text0(TextGen::UserAgentSafari) });
    v.push(CatalogEntry { name: String::from_str("fakeit_user_agent_opera"), native: NativeFn::Text0(TextGen::UserAgentOpera) });
    v.push(CatalogEntry { name: String::from_str("fakeit_user_agent_linux_platform_token"), native: NativeFn::Text0(TextGen::UserAgentLinuxPlatformToken) });
    v.push(CatalogEntry { name: String::from_str("fakeit_user_agent_mac_platform_token"), native: NativeFn::Text0(TextGen::UserAgentMacPlatformToken) });
    v.push(CatalogEntry { name: String::from_str("fakeit_user_agent_windows_platform_token"), native: NativeFn::Text0(TextGen::UserAgentWindowsPlatformToken) });
    v.push(CatalogEntry { name: String::from_str("fakeit_user_agent_random_platform"), native: NativeFn::Text0(TextGen::UserAgentRandomPlatform) });
    v.push(CatalogEntry { name: String::from_str("fakeit_vehicle_vehicle_type"), native: NativeFn::Text0(TextGen::VehicleType) });
    v.push(CatalogEntry { name: String::from_str("fakeit_vehicle_fuel"), native: NativeFn::Text0(TextGen::VehicleFuel) });
    v.push(CatalogEntry { name: String::from_str("fakeit_vehicle_transmission_gear"), native: NativeFn::Text0(TextGen::VehicleTransmissionGear) });
    v.push(CatalogEntry { name: String::from_str("fakeit_vehicle_car_maker"), native: NativeFn::Text0(TextGen::VehicleCarMaker) });
    v.push(CatalogEntry { name: String::from_str("fakeit_vehicle_car_model"), native: NativeFn::Text0(TextGen::VehicleCarModel) });
    v.push(CatalogEntry { name: String::from_str("fakeit_words_word"), native: NativeFn::Text0(TextGen::WordsWord) });
    v.push(CatalogEntry { name: String::from_str("fakeit_words_sentence"), native: NativeFn::Text0(TextGen::WordsSentence) });
    v.push(CatalogEntry { name: String::from_str("fakeit_words_paragraph"), native: NativeFn::Text0(TextGen::WordsParagraph) });
    v.push(CatalogEntry { name: String::from_str("fakeit_words_question"), native: NativeFn::Text0(TextGen::WordsQuestion) });
    v.push(CatalogEntry { name: String::from_str("fakeit_words_quote"), native: NativeFn::Text0(TextGen::WordsQuote) });
    v.push(CatalogEntry { name: String::from_str("fakeit_generator_generate"), native: NativeFn::Text0(TextGen::GeneratorGenerate) });
    v.push(CatalogEntry { name: String::from_str("fakeit_bool"), native: NativeFn::Bool0(BoolGen::Random) });
    v.push(CatalogEntry { name: String::from_str("fakeit_status_code_simple"), native: NativeFn::Integer0(IntGen::StatusCodeSimple) });
    v.push(CatalogEntry { name: String::from_str("fakeit_status_code_general"), native: NativeFn::Integer0(IntGen::StatusCodeGeneral) });
    v
}

/// The catalog as a mathematical table: each entry's name (as a
/// character sequence) and native function, in registration order.
pub open spec fn catalog_spec() -> Seq<(Seq<char>, NativeFn)> {
    catalog_spec_one() + catalog_spec_two() + catalog_spec_three()
}

/// Build the catalog: exactly the entries of `catalog_spec`, in order.
pub fn catalog() -> (entries: Vec<CatalogEntry>)
    ensures
        entries@.len() == catalog_spec().len(),
        forall|i: int|
            0 <= i < entries@.len() ==> (#[trigger] entries@[i]).name@ == catalog_spec()[i].0
                && entries@[i].native == catalog_spec()[i].1,
{
    let mut v = catalog_part_one();
    let mut two = catalog_part_two();
    let mut three = catalog_part_three();
    let ghost n1 = v@.len();
    let ghost n2 = two@.len();
    v.append(&mut two);
    v.append(&mut three);
    proof {
        assert forall|i: int|
            0 <= i < v@.len() implies (#[trigger] v@[i]).name@ == catalog_spec()[i].0 && v@[i].native
            == catalog_spec()[i].1 by {
            if i < n1 {
                assert(catalog_spec()[i] == catalog_spec_one()[i]);
            } else if i < n1 + n2 {
                assert(catalog_spec()[i] == catalog_spec_two()[i - n1]);
            } else {
                assert(catalog_spec()[i] == catalog_spec_three()[i - n1 - n2]);
            }
        }
    }
    v
}

/// Entry `k` of `entries` can be registered against a registry that
/// started as `reg`: its name collides neither with a function already
/// registered there nor with an earlier entry of the list.
pub open spec fn fresh_at(reg: EngineRegistry, entries: Seq<CatalogEntry>, k: int) -> bool {
    &&& !reg.contains_name(entries[k].name@)
    &&& forall|j: int| 0 <= j < k ==> (#[trigger] entries[j]).name@ != entries[k].name@
}

/// Register a list of entries in order, aborting at the first failure.
///
/// Success is owed exactly when every entry's name is fresh: new to the
/// registry and no repeat of an earlier entry. On success all entries are
/// appended in order; on failure the error names the first offender, the
/// entries before it stay registered, and the entries from it on are not.
/// Either way every earlier registration is untouched, and every
/// descriptor handle that an attempt created has been destroyed.
pub fn register_entries(reg: &mut EngineRegistry, entries: Vec<CatalogEntry>) -> (r: Result<
    (),
    RegistrationError,
>)
    requires
        old(reg).wf(),
        old(reg).descriptors_created + entries@.len() <= u64::MAX,
    ensures
        final(reg).wf(),
        final(reg).descriptors_created == final(reg).descriptors_destroyed + (
        old(reg).descriptors_created - old(reg).descriptors_destroyed),
        final(reg).entries@.subrange(0, old(reg).entries@.len() as int) == old(reg).entries@,
        match r {
            Ok(()) => {
                &&& forall|k: int| 0 <= k < entries@.len() ==> fresh_at(*old(reg), entries@, k)
                &&& final(reg).entries@.len() == old(reg).entries@.len() + entries@.len()
                &&& forall|k: int|
                    0 <= k < entries@.len() ==> registered_as(
                        #[trigger] final(reg).entries@[old(reg).entries@.len() + k],
                        entries@[k].name@,
                        entries@[k].native,
                    )
                &&& final(reg).descriptors_created == old(reg).descriptors_created
                    + entries@.len()
            },
            Err(e) => exists|k: int|
                {
                    &&& 0 <= k < entries@.len()
                    &&& !fresh_at(*old(reg), entries@, k)
                    &&& (forall|j: int| 0 <= j < k ==> fresh_at(*old(reg), entries@, j))
                    &&& (e matches RegistrationError::DuplicateOrInvalid(n) && n@
                        == entries@[k].name@)
                    &&& final(reg).entries@.len() == old(reg).entries@.len() + k
                    &&& (forall|j: int|
                        0 <= j < k ==> registered_as(
                            #[trigger] final(reg).entries@[old(reg).entries@.len() + j],
                            entries@[j].name@,
                            entries@[j].native,
                        ))
                    &&& final(reg).descriptors_created == old(reg).descriptors_created + k + 1
                },
        },
{
    let ghost reg0 = *old(reg);
    let ghost all = entries@;
    let ghost base = reg0.entries@.len() as int;
    let mut rest = entries;
    let ghost mut i: int = 0;
    while rest.len() > 0
        invariant
            reg0 == *old(reg),
            all == entries@,
            base == reg0.entries@.len(),
            reg.wf(),
            0 <= i,
            i + rest@.len() == all.len(),
            rest@ =~= all.subrange(i, all.len() as int),
            reg.entries@.len() == base + i,
            reg.entries@.subrange(0, base) =~= reg0.entries@,
            reg.descriptors_created == reg0.descriptors_created + i,
            reg.descriptors_destroyed == reg0.descriptors_destroyed + i,
            reg0.descriptors_created + all.len() <= u64::MAX,
            forall|j: int| 0 <= j < i ==> fresh_at(reg0, all, j),
            forall|j: int|
                0 <= j < i ==> registered_as(
                    #[trigger] reg.entries@[base + j],
                    all[j].name@,
                    all[j].native,
                ),
        decreases rest@.len(),
    {
        let ghost reg_before = *reg;
        let entry = rest.remove(0);
        let ghost k = i;
        proof {
            assert(entry == all.subrange(k, all.len() as int)[0]);
            assert(entry == all[k]);
        }
        let CatalogEntry { name, native } = entry;
        let outcome = register_scalar(reg, name, native);
        proof {
            lemma_names_split(reg_before, reg0, all, k, all[k].name@);
        }
        match outcome {
            Ok(()) => {
                proof {
                    assert forall|idx: int| 0 <= idx < base implies #[trigger] reg.entries@[idx]
                        == reg0.entries@[idx] by {
                        assert(reg.entries@.subrange(0, base + k)[idx] == reg.entries@[idx]);
                        assert(reg_before.entries@[idx] == reg_before.entries@.subrange(
                            0,
                            base,
                        )[idx]);
                    }
                    assert(reg.entries@.subrange(0, base) =~= reg0.entries@);
                    assert forall|j: int| 0 <= j < k + 1 implies registered_as(
                        #[trigger] reg.entries@[base + j],
                        all[j].name@,
                        all[j].native,
                    ) by {
                        if j < k {
                            assert(reg.entries@.subrange(0, base + k)[base + j]
                                == reg.entries@[base + j]);
                            assert(registered_as(
                                reg_before.entries@[reg0.entries@.len() + j],
                                all[j].name@,
                                all[j].native,
                            ));
                        } else {
                            assert(reg.entries@[base + j] == reg.entries@.last());
                        }
                    }
                    assert(fresh_at(reg0, all, k));
                    i = i + 1;
                }
            },
            Err(e) => {
                proof {
                    assert(!fresh_at(reg0, all, k));
                    assert(reg.entries@.subrange(0, base) =~= reg0.entries@);
                    assert(reg.entries@.subrange(0, reg0.entries@.len() as int)
                        == reg0.entries@);
                    assert({
                        &&& 0 <= k < all.len()
                        &&& !fresh_at(reg0, all, k)
                        &&& (forall|j: int| 0 <= j < k ==> fresh_at(reg0, all, j))
                        &&& (e matches RegistrationError::DuplicateOrInvalid(n) && n@
                            == all[k].name@)
                        &&& reg.entries@.len() == reg0.entries@.len() + k
                        &&& (forall|j: int|
                            0 <= j < k ==> registered_as(
                                #[trigger] reg.entries@[reg0.entries@.len() + j],
                                all[j].name@,
                                all[j].native,
                            ))
                        &&& reg.descriptors_created == reg0.descriptors_created + k + 1
                    });
                }
                return Err(e);
            },
        }
    }
    proof {
        assert(i == all.len());
        assert(reg.entries@.subrange(0, reg0.entries@.len() as int) == reg0.entries@);
    }
    Ok(())
}

/// Entry `k` of the catalog can be registered against `reg`: its name
/// collides neither with a function already registered there nor with an
/// earlier catalog entry.
pub open spec fn catalog_fresh_at(reg: EngineRegistry, k: int) -> bool {
    &&& !reg.contains_name(catalog_spec()[k].0)
    &&& forall|j: int| 0 <= j < k ==> catalog_spec()[j].0 != catalog_spec()[k].0
}

/// The load-time registration sequence: build the catalog and register
/// every entry, in order, aborting at the first failure.
///
/// Succeeds exactly when every catalog name is fresh for `reg` (as the
/// catalog's names are pairwise distinct, that is: none is registered
/// yet); then the whole catalog is appended to the registry in order. On
/// failure the error names the first offending entry, everything before
/// it is registered, and earlier registrations are untouched either way.
pub fn register_all(reg: &mut EngineRegistry) -> (r: Result<(), RegistrationError>)
    requires
        old(reg).wf(),
        old(reg).descriptors_created + catalog_spec().len() <= u64::MAX,
    ensures
        final(reg).wf(),
        final(reg).entries@.subrange(0, old(reg).entries@.len() as int) == old(reg).entries@,
        final(reg).descriptors_created == final(reg).descriptors_destroyed + (
        old(reg).descriptors_created - old(reg).descriptors_destroyed),
        r is Ok <==> (forall|k: int|
            0 <= k < catalog_spec().len() ==> catalog_fresh_at(*old(reg), k)),
        r is Ok ==> {
            &&& final(reg).entries@.len() == old(reg).entries@.len() + catalog_spec().len()
            &&& forall|k: int|
                0 <= k < catalog_spec().len() ==> registered_as(
                    #[trigger] final(reg).entries@[old(reg).entries@.len() + k],
                    catalog_spec()[k].0,
                    catalog_spec()[k].1,
                )
        },
        r is Err ==> exists|k: int|
            {
                &&& 0 <= k < catalog_spec().len()
                &&& !catalog_fresh_at(*old(reg), k)
                &&& (forall|j: int| 0 <= j < k ==> catalog_fresh_at(*old(reg), j))
                &&& (r matches Err(RegistrationError::DuplicateOrInvalid(n)) && n@
                    == catalog_spec()[k].0)
                &&& final(reg).entries@.len() == old(reg).entries@.len() + k
                &&& (forall|j: int|
                    0 <= j < k ==> registered_as(
                        #[trigger] final(reg).entries@[old(reg).entries@.len() + j],
                        catalog_spec()[j].0,
                        catalog_spec()[j].1,
                    ))
                &&& final(reg).descriptors_created == old(reg).descriptors_created + k + 1
            },
{
    let entries = catalog();
    let ghost names = entries@;
    let outcome = register_entries(reg, entries);
    proof {
        assert forall|k: int| 0 <= k < names.len() implies (fresh_at(*old(reg), names, k)
            <==> catalog_fresh_at(*old(reg), k)) by {
            assert(names[k].name@ == catalog_spec()[k].0);
            assert forall|j: int| 0 <= j < k implies (#[trigger] names[j]).name@
                == catalog_spec()[j].0 by {}
            if fresh_at(*old(reg), names, k) {
                assert forall|j: int| 0 <= j < k implies catalog_spec()[j].0
                    != catalog_spec()[k].0 by {
                    assert(names[j].name@ != names[k].name@);
                }
                assert(catalog_fresh_at(*old(reg), k));
            }
            if catalog_fresh_at(*old(reg), k) {
                assert forall|j: int| 0 <= j < k implies (#[trigger] names[j]).name@
                    != names[k].name@ by {
                    assert(catalog_spec()[j].0 != catalog_spec()[k].0);
                }
                assert(fresh_at(*old(reg), names, k));
            }
        }
        if outcome is Err {
            let ek = choose|k: int|
                {
                    &&& 0 <= k < names.len()
                    &&& !fresh_at(*old(reg), names, k)
                    &&& (forall|j: int| 0 <= j < k ==> fresh_at(*old(reg), names, j))
                    &&& (outcome matches Err(RegistrationError::DuplicateOrInvalid(n)) && n@
                        == names[k].name@)
                    &&& reg.entries@.len() == old(reg).entries@.len() + k
                    &&& (forall|j: int|
                        0 <= j < k ==> registered_as(
                            #[trigger] reg.entries@[old(reg).entries@.len() + j],
                            names[j].name@,
                            names[j].native,
                        ))
                    &&& reg.descriptors_created == old(reg).descriptors_created + k + 1
                };
            assert forall|j: int| 0 <= j < ek implies registered_as(
                #[trigger] reg.entries@[old(reg).entries@.len() + j],
                catalog_spec()[j].0,
                catalog_spec()[j].1,
            ) by {
                assert(registered_as(
                    reg.entries@[old(reg).entries@.len() + j],
                    names[j].name@,
                    names[j].native,
                ));
                assert(names[j].name@ == catalog_spec()[j].0);
                assert(names[j].native == catalog_spec()[j].1);
            }
            assert({
                &&& 0 <= ek < catalog_spec().len()
                &&& !catalog_fresh_at(*old(reg), ek)
                &&& (forall|j: int| 0 <= j < ek ==> catalog_fresh_at(*old(reg), j))
                &&& (outcome matches Err(RegistrationError::DuplicateOrInvalid(n)) && n@
                    == catalog_spec()[ek].0)
                &&& reg.entries@.len() == old(reg).entries@.len() + ek
                &&& (forall|j: int|
                    0 <= j < ek ==> registered_as(
                        #[trigger] reg.entries@[old(reg).entries@.len() + j],
                        catalog_spec()[j].0,
                        catalog_spec()[j].1,
                    ))
                &&& reg.descriptors_created == old(reg).descriptors_created + ek + 1
            });
        }
    }
    outcome
}

/// The catalog's names are pairwise distinct: no entry repeats the
/// SQL-callable name of another. Proved by revealing every name and,
/// for each pair, its length or one distinguishing character.
#[verifier::rlimit(100)]
pub proof fn lemma_catalog_names_distinct()
    ensures
        forall|i: int, j: int|
            0 <= i < catalog_spec().len() && 0 <= j < catalog_spec().len() && i != j
                ==> catalog_spec()[i].0 != catalog_spec()[j].0,
{
    reveal_strlit("fakeit_address_street");
    reveal_strlit("fakeit_address_city");
    reveal_strlit("fakeit_address_state");
    reveal_strlit("fakeit_address_zip");
    reveal_strlit("fakeit_address_country");
    reveal_strlit("fakeit_address_street_number");
    reveal_strlit("fakeit_address_street_prefix");
    reveal_strlit("fakeit_address_street_name");
    reveal_strlit("fakeit_address_street_suffix");
    reveal_strlit("fakeit_address_state_abr");
    reveal_strlit("fakeit_address_country_abr");
    reveal_strlit("fakeit_address_latitude");
    reveal_strlit("fakeit_address_longitude");
    reveal_strlit("fakeit_name_first");
    reveal_strlit("fakeit_name_last");
    reveal_strlit("fakeit_name_full");
    reveal_strlit("fakeit_name_prefix");
    reveal_strlit("fakeit_name_suffix");
    reveal_strlit("fakeit_company_company");
    reveal_strlit("fakeit_company_bs");
    reveal_strlit("fakeit_company_company_suffix");
    reveal_strlit("fakeit_company_buzzword");
    reveal_strlit("fakeit_contact_email");
    reveal_strlit("fakeit_contact_phone");
    reveal_strlit("fakeit_contact_phone_formatted");
    reveal_strlit("fakeit_internet_ipv4_address");
    reveal_strlit("fakeit_internet_ipv6_address");
    reveal_strlit("fakeit_internet_domain_name");
    reveal_strlit("fakeit_internet_domain_suffix");
    reveal_strlit("fakeit_internet_username");
    reveal_strlit("fakeit_internet_http_method");
    reveal_strlit("fakeit_internet_mac_address");
    reveal_strlit("fakeit_uuid_v1");
    reveal_strlit("fakeit_uuid_v4");
    reveal_strlit("fakeit_animal_pet_name");
    reveal_strlit("fakeit_animal_animal");
    reveal_strlit("fakeit_animal_farm");
    reveal_strlit("fakeit_animal_cat");
    reveal_strlit("fakeit_animal_dog");
    reveal_strlit("fakeit_beer_name");
    reveal_strlit("fakeit_beer_style");
    reveal_strlit("fakeit_beer_hop");
    reveal_strlit("fakeit_beer_yeast");
    reveal_strlit("fakeit_beer_malt");
    reveal_strlit("fakeit_beer_ibu");
    reveal_strlit("fakeit_beer_alcohol");
    reveal_strlit("fakeit_beer_blg");
    reveal_strlit("fakeit_color_full");
    reveal_strlit("fakeit_color_hex");
    reveal_strlit("fakeit_color_safe");
    reveal_strlit("fakeit_color_rgb");
    reveal_strlit("fakeit_currency_short");
    reveal_strlit("fakeit_currency_long");
    reveal_strlit("fakeit_currency_price");
    reveal_strlit("fakeit_datetime_month");
    reveal_strlit("fakeit_datetime_day");
    reveal_strlit("fakeit_datetime_week_day");
    reveal_strlit("fakeit_datetime_timezone");
    reveal_strlit("fakeit_datetime_timezone_full");
    reveal_strlit("fakeit_datetime_timezone_abv");
    reveal_strlit("fakeit_datetime_year");
    reveal_strlit("fakeit_datetime_hour");
    reveal_strlit("fakeit_datetime_minute");
    reveal_strlit("fakeit_datetime_second");
    reveal_strlit("fakeit_datetime_nanosecond");
    reveal_strlit("fakeit_datetime_timezone_offset");
    reveal_strlit("fakeit_datetime_date");
    reveal_strlit("fakeit_file_extension");
    reveal_strlit("fakeit_file_mime_type");
    reveal_strlit("fakeit_hacker_phrase");
    reveal_strlit("fakeit_hacker_abbreviation");
    reveal_strlit("fakeit_hacker_adjective");
    reveal_strlit("fakeit_hacker_noun");
    reveal_strlit("fakeit_hacker_verb");
    reveal_strlit("fakeit_hacker_ingverb");
    reveal_strlit("fakeit_hipster_word");
    reveal_strlit("fakeit_hipster_sentence");
    reveal_strlit("fakeit_hipster_paragraph");
    reveal_strlit("fakeit_image_url");
    reveal_strlit("fakeit_job_title");
    reveal_strlit("fakeit_job_descriptor");
    reveal_strlit("fakeit_job_level");
    reveal_strlit("fakeit_language_random");
    reveal_strlit("fakeit_language_abbreviation");
    reveal_strlit("fakeit_language_programming");
    reveal_strlit("fakeit_log_level_general");
    reveal_strlit("fakeit_log_level_syslog");
    reveal_strlit("fakeit_log_level_apache");
    reveal_strlit("fakeit_password_generate");
    reveal_strlit("fakeit_payment_credit_card_type");
    reveal_strlit("fakeit_payment_credit_card_number");
    reveal_strlit("fakeit_payment_credit_card_exp");
    reveal_strlit("fakeit_payment_credit_card_cvv");
    reveal_strlit("fakeit_payment_credit_card_luhn_number");
    reveal_strlit("fakeit_person_ssn");
    reveal_strlit("fakeit_person_gender");
    reveal_strlit("fakeit_user_agent_chrome");
    reveal_strlit("fakeit_user_agent_firefox");
    reveal_strlit("fakeit_user_agent_safari");
    reveal_strlit("fakeit_user_agent_opera");
    reveal_strlit("fakeit_user_agent_linux_platform_token");
    reveal_strlit("fakeit_user_agent_mac_platform_token");
    reveal_strlit("fakeit_user_agent_windows_platform_token");
    reveal_strlit("fakeit_user_agent_random_platform");
    reveal_strlit("fakeit_vehicle_vehicle_type");
    reveal_strlit("fakeit_vehicle_fuel");
    reveal_strlit("fakeit_vehicle_transmission_gear");
    reveal_strlit("fakeit_vehicle_car_maker");
    reveal_strlit("fakeit_vehicle_car_model");
    reveal_strlit("fakeit_words_word");
    reveal_strlit("fakeit_words_sentence");
    reveal_strlit("fakeit_words_paragraph");
    reveal_strlit("fakeit_words_question");
    reveal_strlit("fakeit_words_quote");
    reveal_strlit("fakeit_generator_generate");
    reveal_strlit("fakeit_bool");
    reveal_strlit("fakeit_status_code_simple");
    reveal_strlit("fakeit_status_code_general");
    assert(("fakeit_address_street"@).len() == 21);
    assert(("fakeit_address_city"@).len() == 19);
    assert(("fakeit_address_state"@).len() == 20);
    assert(("fakeit_address_zip"@).len() == 18);
    assert(("fakeit_address_country"@).len() == 22);
    assert(("fakeit_address_street_number"@).len() == 28);
    assert(("fakeit_address_street_prefix"@).len() == 28);
    assert(("fakeit_address_street_name"@).len() == 26);
    assert(("fakeit_address_street_suffix"@).len() == 28);
    assert(("fakeit_address_state_abr"@).len() == 24);
    assert(("fakeit_address_country_abr"@).len() == 26);
    assert(("fakeit_address_latitude"@).len() == 23);
    assert(("fakeit_address_longitude"@).len() == 24);
    assert(("fakeit_name_first"@).len() == 17);
    assert(("fakeit_name_last"@).len() == 16);
    assert(("fakeit_name_full"@).len() == 16);
    assert(("fakeit_name_prefix"@).len() == 18);
    assert(("fakeit_name_suffix"@).len() == 18);
    assert(("fakeit_company_company"@).len() == 22);
    assert(("fakeit_company_bs"@).len() == 17);
    assert(("fakeit_company_company_suffix"@).len() == 29);
    assert(("fakeit_company_buzzword"@).len() == 23);
    assert(("fakeit_contact_email"@).len() == 20);
    assert(("fakeit_contact_phone"@).len() == 20);
    assert(("fakeit_contact_phone_formatted"@).len() == 30);
    assert(("fakeit_internet_ipv4_address"@).len() == 28);
    assert(("fakeit_internet_ipv6_address"@).len() == 28);
    assert(("fakeit_internet_domain_name"@).len() == 27);
    assert(("fakeit_internet_domain_suffix"@).len() == 29);
    assert(("fakeit_internet_username"@).len() == 24);
    assert(("fakeit_internet_http_method"@).len() == 27);
    assert(("fakeit_internet_mac_address"@).len() == 27);
    assert(("fakeit_uuid_v1"@).len() == 14);
    assert(("fakeit_uuid_v4"@).len() == 14);
    assert(("fakeit_animal_pet_name"@).len() == 22);
    assert(("fakeit_animal_animal"@).len() == 20);
    assert(("fakeit_animal_farm"@).len() == 18);
    assert(("fakeit_animal_cat"@).len() == 17);
    assert(("fakeit_animal_dog"@).len() == 17);
    assert(("fakeit_beer_name"@).len() == 16);
    assert(("fakeit_beer_style"@).len() == 17);
    assert(("fakeit_beer_hop"@).len() == 15);
    assert(("fakeit_beer_yeast"@).len() == 17);
    assert(("fakeit_beer_malt"@).len() == 16);
    assert(("fakeit_beer_ibu"@).len() == 15);
    assert(("fakeit_beer_alcohol"@).len() == 19);
    assert(("fakeit_beer_blg"@).len() == 15);
    assert(("fakeit_color_full"@).len() == 17);
    assert(("fakeit_color_hex"@).len() == 16);
    assert(("fakeit_color_safe"@).len() == 17);
    assert(("fakeit_color_rgb"@).len() == 16);
    assert(("fakeit_currency_short"@).len() == 21);
    assert(("fakeit_currency_long"@).len() == 20);
    assert(("fakeit_currency_price"@).len() == 21);
    assert(("fakeit_datetime_month"@).len() == 21);
    assert(("fakeit_datetime_day"@).len() == 19);
    assert(("fakeit_datetime_week_day"@).len() == 24);
    assert(("fakeit_datetime_timezone"@).len() == 24);
    assert(("fakeit_datetime_timezone_full"@).len() == 29);
    assert(("fakeit_datetime_timezone_abv"@).len() == 28);
    assert(("fakeit_datetime_year"@).len() == 20);
    assert(("fakeit_datetime_hour"@).len() == 20);
    assert(("fakeit_datetime_minute"@).len() == 22);
    assert(("fakeit_datetime_second"@).len() == 22);
    assert(("fakeit_datetime_nanosecond"@).len() == 26);
    assert(("fakeit_datetime_timezone_offset"@).len() == 31);
    assert(("fakeit_datetime_date"@).len() == 20);
    assert(("fakeit_file_extension"@).len() == 21);
    assert(("fakeit_file_mime_type"@).len() == 21);
    assert(("fakeit_hacker_phrase"@).len() == 20);
    assert(("fakeit_hacker_abbreviation"@).len() == 26);
    assert(("fakeit_hacker_adjective"@).len() == 23);
    assert(("fakeit_hacker_noun"@).len() == 18);
    assert(("fakeit_hacker_verb"@).len() == 18);
    assert(("fakeit_hacker_ingverb"@).len() == 21);
    assert(("fakeit_hipster_word"@).len() == 19);
    assert(("fakeit_hipster_sentence"@).len() == 23);
    assert(("fakeit_hipster_paragraph"@).len() == 24);
    assert(("fakeit_image_url"@).len() == 16);
    assert(("fakeit_job_title"@).len() == 16);
    assert(("fakeit_job_descriptor"@).len() == 21);
    assert(("fakeit_job_level"@).len() == 16);
    assert(("fakeit_language_random"@).len() == 22);
    assert(("fakeit_language_abbreviation"@).len() == 28);
    assert(("fakeit_language_programming"@).len() == 27);
    assert(("fakeit_log_level_general"@).len() == 24);
    assert(("fakeit_log_level_syslog"@).len() == 23);
    assert(("fakeit_log_level_apache"@).len() == 23);
    assert(("fakeit_password_generate"@).len() == 24);
    assert(("fakeit_payment_credit_card_type"@).len() == 31);
    assert(("fakeit_payment_credit_card_number"@).len() == 33);
    assert(("fakeit_payment_credit_card_exp"@).len() == 30);
    assert(("fakeit_payment_credit_card_cvv"@).len() == 30);
    assert(("fakeit_payment_credit_card_luhn_number"@).len() == 38);
    assert(("fakeit_person_ssn"@).len() == 17);
    assert(("fakeit_person_gender"@).len() == 20);
    assert(("fakeit_user_agent_chrome"@).len() == 24);
    assert(("fakeit_user_agent_firefox"@).len() == 25);
    assert(("fakeit_user_agent_safari"@).len() == 24);
    assert(("fakeit_user_agent_opera"@).len() == 23);
    assert(("fakeit_user_agent_linux_platform_token"@).len() == 38);
    assert(("fakeit_user_agent_mac_platform_token"@).len() == 36);
    assert(("fakeit_user_agent_windows_platform_token"@).len() == 40);
    assert(("fakeit_user_agent_random_platform"@).len() == 33);
    assert(("fakeit_vehicle_vehicle_type"@).len() == 27);
    assert(("fakeit_vehicle_fuel"@).len() == 19);
    assert(("fakeit_vehicle_transmission_gear"@).len() == 32);
    assert(("fakeit_vehicle_car_maker"@).len() == 24);
    assert(("fakeit_vehicle_car_model"@).len() == 24);
    assert(("fakeit_words_word"@).len() == 17);
    assert(("fakeit_words_sentence"@).len() == 21);
    assert(("fakeit_words_paragraph"@).len() == 22);
    assert(("fakeit_words_question"@).len() == 21);
    assert(("fakeit_words_quote"@).len() == 18);
    assert(("fakeit_generator_generate"@).len() == 25);
    assert(("fakeit_bool"@).len() == 11);
    assert(("fakeit_status_code_simple"@).len() == 25);
    assert(("fakeit_status_code_general"@).len() == 26);
    assert(("fakeit_address_city"@)[7] == 'a');
    assert(("fakeit_address_country"@)[7] == 'a');
    assert(("fakeit_address_country"@)[8] == 'd');
    assert(("fakeit_address_country_abr"@)[7] == 'a');
    assert(("fakeit_address_country_abr"@)[15] == 'c');
    assert(("fakeit_address_latitude"@)[7] == 'a');
    assert(("fakeit_address_longitude"@)[7] == 'a');
    assert(("fakeit_address_longitude"@)[15] == 'l');
    assert(("fakeit_address_state"@)[7] == 'a');
    assert(("fakeit_address_state"@)[8] == 'd');
    assert(("fakeit_address_state_abr"@)[7] == 'a');
    assert(("fakeit_address_state_abr"@)[15] == 's');
    assert(("fakeit_address_street"@)[7] == 'a');
    assert(("fakeit_address_street_name"@)[7] == 'a');
    assert(("fakeit_address_street_name"@)[15] == 's');
    assert(("fakeit_address_street_number"@)[7] == 'a');
    assert(("fakeit_address_street_number"@)[22] == 'n');
    assert(("fakeit_address_street_prefix"@)[7] == 'a');
    assert(("fakeit_address_street_prefix"@)[22] == 'p');
    assert(("fakeit_address_street_suffix"@)[7] == 'a');
    assert(("fakeit_address_street_suffix"@)[22] == 's');
    assert(("fakeit_address_zip"@)[7] == 'a');
    assert(("fakeit_address_zip"@)[8] == 'd');
    assert(("fakeit_animal_animal"@)[7] == 'a');
    assert(("fakeit_animal_animal"@)[8] == 'n');
    assert(("fakeit_animal_cat"@)[7] == 'a');
    assert(("fakeit_animal_cat"@)[14] == 'c');
    assert(("fakeit_animal_dog"@)[7] == 'a');
    assert(("fakeit_animal_dog"@)[14] == 'd');
    assert(("fakeit_animal_farm"@)[7] == 'a');
    assert(("fakeit_animal_farm"@)[8] == 'n');
    assert(("fakeit_animal_pet_name"@)[7] == 'a');
    assert(("fakeit_animal_pet_name"@)[8] == 'n');
    assert(("fakeit_beer_alcohol"@)[7] == 'b');
    assert(("fakeit_beer_blg"@)[12] == 'b');
    assert(("fakeit_beer_hop"@)[12] == 'h');
    assert(("fakeit_beer_ibu"@)[12] == 'i');
    assert(("fakeit_beer_malt"@)[7] == 'b');
    assert(("fakeit_beer_malt"@)[12] == 'm');
    assert(("fakeit_beer_name"@)[7] == 'b');
    assert(("fakeit_beer_name"@)[12] == 'n');
    assert(("fakeit_beer_style"@)[7] == 'b');
    assert(("fakeit_beer_style"@)[12] == 's');
    assert(("fakeit_beer_yeast"@)[7] == 'b');
    assert(("fakeit_beer_yeast"@)[12] == 'y');
    assert(("fakeit_color_full"@)[7] == 'c');
    assert(("fakeit_color_full"@)[9] == 'l');
    assert(("fakeit_color_full"@)[13] == 'f');
    assert(("fakeit_color_hex"@)[7] == 'c');
    assert(("fakeit_color_hex"@)[13] == 'h');
    assert(("fakeit_color_rgb"@)[7] == 'c');
    assert(("fakeit_color_rgb"@)[13] == 'r');
    assert(("fakeit_color_safe"@)[7] == 'c');
    assert(("fakeit_color_safe"@)[9] == 'l');
    assert(("fakeit_color_safe"@)[13] == 's');
    assert(("fakeit_company_bs"@)[7] == 'c');
    assert(("fakeit_company_bs"@)[9] == 'm');
    assert(("fakeit_company_buzzword"@)[7] == 'c');
    assert(("fakeit_company_company"@)[7] == 'c');
    assert(("fakeit_company_company_suffix"@)[7] == 'c');
    assert(("fakeit_contact_email"@)[7] == 'c');
    assert(("fakeit_contact_email"@)[8] == 'o');
    assert(("fakeit_contact_email"@)[15] == 'e');
    assert(("fakeit_contact_phone"@)[7] == 'c');
    assert(("fakeit_contact_phone"@)[8] == 'o');
    assert(("fakeit_contact_phone"@)[15] == 'p');
    assert(("fakeit_contact_phone_formatted"@)[7] == 'c');
    assert(("fakeit_currency_long"@)[7] == 'c');
    assert(("fakeit_currency_long"@)[8] == 'u');
    assert(("fakeit_currency_price"@)[7] == 'c');
    assert(("fakeit_currency_price"@)[16] == 'p');
    assert(("fakeit_currency_short"@)[7] == 'c');
    assert(("fakeit_currency_short"@)[16] == 's');
    assert(("fakeit_datetime_date"@)[7] == 'd');
    assert(("fakeit_datetime_date"@)[16] == 'd');
    assert(("fakeit_datetime_day"@)[7] == 'd');
    assert(("fakeit_datetime_hour"@)[7] == 'd');
    assert(("fakeit_datetime_hour"@)[16] == 'h');
    assert(("fakeit_datetime_minute"@)[7] == 'd');
    assert(("fakeit_datetime_minute"@)[16] == 'm');
    assert(("fakeit_datetime_month"@)[7] == 'd');
    assert(("fakeit_datetime_nanosecond"@)[7] == 'd');
    assert(("fakeit_datetime_second"@)[7] == 'd');
    assert(("fakeit_datetime_second"@)[16] == 's');
    assert(("fakeit_datetime_timezone"@)[7] == 'd');
    assert(("fakeit_datetime_timezone"@)[16] == 't');
    assert(("fakeit_datetime_timezone_abv"@)[7] == 'd');
    assert(("fakeit_datetime_timezone_full"@)[7] == 'd');
    assert(("fakeit_datetime_timezone_offset"@)[7] == 'd');
    assert(("fakeit_datetime_week_day"@)[7] == 'd');
    assert(("fakeit_datetime_week_day"@)[16] == 'w');
    assert(("fakeit_datetime_year"@)[7] == 'd');
    assert(("fakeit_datetime_year"@)[16] == 'y');
    assert(("fakeit_file_extension"@)[7] == 'f');
    assert(("fakeit_file_extension"@)[12] == 'e');
    assert(("fakeit_file_mime_type"@)[7] == 'f');
    assert(("fakeit_file_mime_type"@)[12] == 'm');
    assert(("fakeit_generator_generate"@)[7] == 'g');
    assert(("fakeit_hacker_abbreviation"@)[7] == 'h');
    assert(("fakeit_hacker_adjective"@)[7] == 'h');
    assert(("fakeit_hacker_adjective"@)[8] == 'a');
    assert(("fakeit_hacker_ingverb"@)[7] == 'h');
    assert(("fakeit_hacker_noun"@)[7] == 'h');
    assert(("fakeit_hacker_noun"@)[14] == 'n');
    assert(("fakeit_hacker_phrase"@)[7] == 'h');
    assert(("fakeit_hacker_verb"@)[7] == 'h');
    assert(("fakeit_hacker_verb"@)[14] == 'v');
    assert(("fakeit_hipster_paragraph"@)[7] == 'h');
    assert(("fakeit_hipster_sentence"@)[7] == 'h');
    assert(("fakeit_hipster_sentence"@)[8] == 'i');
    assert(("fakeit_hipster_word"@)[7] == 'h');
    assert(("fakeit_image_url"@)[7] == 'i');
    assert(("fakeit_internet_domain_name"@)[7] == 'i');
    assert(("fakeit_internet_domain_name"@)[16] == 'd');
    assert(("fakeit_internet_domain_suffix"@)[7] == 'i');
    assert(("fakeit_internet_http_method"@)[7] == 'i');
    assert(("fakeit_internet_http_method"@)[16] == 'h');
    assert(("fakeit_internet_ipv4_address"@)[7] == 'i');
    assert(("fakeit_internet_ipv4_address"@)[19] == '4');
    assert(("fakeit_internet_ipv6_address"@)[7] == 'i');
    assert(("fakeit_internet_ipv6_address"@)[19] == '6');
    assert(("fakeit_internet_mac_address"@)[7] == 'i');
    assert(("fakeit_internet_mac_address"@)[16] == 'm');
    assert(("fakeit_internet_username"@)[7] == 'i');
    assert(("fakeit_job_descriptor"@)[7] == 'j');
    assert(("fakeit_job_level"@)[7] == 'j');
    assert(("fakeit_job_level"@)[11] == 'l');
    assert(("fakeit_job_title"@)[7] == 'j');
    assert(("fakeit_job_title"@)[11] == 't');
    assert(("fakeit_language_abbreviation"@)[7] == 'l');
    assert(("fakeit_language_programming"@)[7] == 'l');
    assert(("fakeit_language_random"@)[7] == 'l');
    assert(("fakeit_log_level_apache"@)[7] == 'l');
    assert(("fakeit_log_level_apache"@)[17] == 'a');
    assert(("fakeit_log_level_general"@)[7] == 'l');
    assert(("fakeit_log_level_syslog"@)[7] == 'l');
    assert(("fakeit_log_level_syslog"@)[17] == 's');
    assert(("fakeit_name_first"@)[7] == 'n');
    assert(("fakeit_name_full"@)[7] == 'n');
    assert(("fakeit_name_full"@)[12] == 'f');
    assert(("fakeit_name_last"@)[7] == 'n');
    assert(("fakeit_name_last"@)[12] == 'l');
    assert(("fakeit_name_prefix"@)[7] == 'n');
    assert(("fakeit_name_prefix"@)[12] == 'p');
    assert(("fakeit_name_suffix"@)[7] == 'n');
    assert(("fakeit_name_suffix"@)[12] == 's');
    assert(("fakeit_password_generate"@)[7] == 'p');
    assert(("fakeit_payment_credit_card_cvv"@)[7] == 'p');
    assert(("fakeit_payment_credit_card_cvv"@)[27] == 'c');
    assert(("fakeit_payment_credit_card_exp"@)[7] == 'p');
    assert(("fakeit_payment_credit_card_exp"@)[27] == 'e');
    assert(("fakeit_payment_credit_card_luhn_number"@)[7] == 'p');
    assert(("fakeit_payment_credit_card_number"@)[7] == 'p');
    assert(("fakeit_payment_credit_card_type"@)[7] == 'p');
    assert(("fakeit_person_gender"@)[7] == 'p');
    assert(("fakeit_person_ssn"@)[7] == 'p');
    assert(("fakeit_status_code_general"@)[7] == 's');
    assert(("fakeit_status_code_simple"@)[7] == 's');
    assert(("fakeit_user_agent_chrome"@)[7] == 'u');
    assert(("fakeit_user_agent_chrome"@)[18] == 'c');
    assert(("fakeit_user_agent_firefox"@)[7] == 'u');
    assert(("fakeit_user_agent_linux_platform_token"@)[7] == 'u');
    assert(("fakeit_user_agent_opera"@)[7] == 'u');
    assert(("fakeit_user_agent_random_platform"@)[7] == 'u');
    assert(("fakeit_user_agent_safari"@)[7] == 'u');
    assert(("fakeit_user_agent_safari"@)[18] == 's');
    assert(("fakeit_uuid_v1"@)[13] == '1');
    assert(("fakeit_uuid_v4"@)[13] == '4');
    assert(("fakeit_vehicle_car_maker"@)[7] == 'v');
    assert(("fakeit_vehicle_car_maker"@)[20] == 'a');
    assert(("fakeit_vehicle_car_model"@)[7] == 'v');
    assert(("fakeit_vehicle_car_model"@)[20] == 'o');
    assert(("fakeit_vehicle_fuel"@)[7] == 'v');
    assert(("fakeit_vehicle_vehicle_type"@)[7] == 'v');
    assert(("fakeit_words_paragraph"@)[7] == 'w');
    assert(("fakeit_words_question"@)[7] == 'w');
    assert(("fakeit_words_question"@)[13] == 'q');
    assert(("fakeit_words_quote"@)[7] == 'w');
    assert(("fakeit_words_sentence"@)[7] == 'w');
    assert(("fakeit_words_sentence"@)[13] == 's');
    assert(("fakeit_words_word"@)[7] == 'w');
}

/// Success of the registration sequence is owed on any registry that
/// holds none of the catalog's names: as the names are pairwise
/// distinct, every entry is then fresh, so by `register_all`'s contract
/// the sequence returns `Ok` exactly under this premise.
pub proof fn lemma_register_all_owed_success(reg: EngineRegistry)
    requires
        forall|k: int|
            0 <= k < catalog_spec().len() ==> !reg.contains_name(#[trigger] catalog_spec()[k].0),
    ensures
        forall|k: int| 0 <= k < catalog_spec().len() ==> catalog_fresh_at(reg, k),
{
    lemma_catalog_names_distinct();
    assert forall|k: int| 0 <= k < catalog_spec().len() implies catalog_fresh_at(reg, k) by {
        assert(!reg.contains_name(catalog_spec()[k].0));
        assert forall|j: int| 0 <= j < k implies catalog_spec()[j].0 != catalog_spec()[k].0 by {}
    }
}

/// Relate name lookups in a registry that grew out of `reg0` by the
/// first `k` entries of `all` to lookups against `reg0` and that prefix:
/// the grown registry holds `name` exactly when `reg0` already held it
/// or an entry before `k` carries it.
proof fn lemma_names_split(
    reg: EngineRegistry,
    reg0: EngineRegistry,
    all: Seq<CatalogEntry>,
    k: int,
    name: Seq<char>,
)
    requires
        0 <= k,
        k <= all.len(),
        reg.entries@.len() == reg0.entries@.len() + k,
        reg.entries@.subrange(0, reg0.entries@.len() as int) =~= reg0.entries@,
        forall|j: int|
            0 <= j < k ==> registered_as(
                #[trigger] reg.entries@[reg0.entries@.len() + j],
                all[j].name@,
                all[j].native,
            ),
    ensures
        reg.contains_name(name) <==> (reg0.contains_name(name) || exists|j: int|
            0 <= j < k && (#[trigger] all[j]).name@ == name),
{
    let base = reg0.entries@.len() as int;
    if reg.contains_name(name) {
        let m = choose|m: int|
            0 <= m < reg.entries@.len() && (#[trigger] reg.entries@[m]).name@ == name;
        if m < base {
            assert(reg.entries@.subrange(0, base)[m] == reg.entries@[m]);
            assert(reg0.entries@[m].name@ == name);
            assert(reg0.contains_name(name));
        } else {
            assert(registered_as(
                reg.entries@[reg0.entries@.len() + (m - base)],
                all[m - base].name@,
                all[m - base].native,
            ));
            assert(all[m - base].name@ == name);
        }
    }
    if reg0.contains_name(name) {
        let m = choose|m: int|
            0 <= m < reg0.entries@.len() && (#[trigger] reg0.entries@[m]).name@ == name;
        assert(reg.entries@.subrange(0, base)[m] == reg.entries@[m]);
        assert(reg.entries@[m].name@ == name);
        assert(reg.contains_name(name));
    }
    if exists|j: int| 0 <= j < k && (#[trigger] all[j]).name@ == name {
        let j = choose|j: int| 0 <= j < k && (#[trigger] all[j]).name@ == name;
        assert(registered_as(
            reg.entries@[reg0.entries@.len() + j],
            all[j].name@,
            all[j].native,
        ));
        assert(reg.entries@[base + j].name@ == name);
        assert(reg.contains_name(name));
    }
}

} // verus!
