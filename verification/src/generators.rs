//! The native value-generating functions the adapter can register,
//! grouped by return kind and arity as tagged enumerations.
//!
//! Each variant stands for one native function. Most draw random values
//! through the trusted wrappers in `fakes`; the `Fixed` variants return a
//! given value and exist so that callers can register fully predictable
//! functions (they also pin down the adapter's behaviour in tests). The
//! `post` spec function of each enumeration says everything that is known
//! of a call's result: for the random variants that is nothing, for the
//! deterministic ones it is the exact value.

use vstd::prelude::*;

use crate::fakes;
use crate::float_bits::widen_f32_bits;

verus! {

/// A zero-argument native function returning text.
#[derive(Debug, Clone, PartialEq, Eq)]
pub enum TextGen {
    AddressStreet,
    AddressStreetNumber,
    AddressStreetPrefix,
    AddressStreetName,
    AddressStreetSuffix,
    AddressCity,
    AddressState,
    AddressStateAbr,
    AddressZip,
    AddressCountry,
    AddressCountryAbr,
    NameFull,
    NameFirst,
    NameLast,
    NamePrefix,
    NameSuffix,
    Company,
    CompanySuffix,
    CompanyBuzzword,
    CompanyBs,
    ContactPhone,
    ContactPhoneFormatted,
    ContactEmail,
    InternetDomainName,
    InternetHttpMethod,
    InternetDomainSuffix,
    InternetIpv4Address,
    InternetIpv6Address,
    InternetMacAddress,
    InternetUsername,
    UniqueUuidV1,
    UniqueUuidV4,
    AnimalPetName,
    Animal,
    AnimalFarm,
    AnimalCat,
    AnimalDog,
    BeerName,
    BeerStyle,
    BeerHop,
    BeerYeast,
    BeerMalt,
    BeerIbu,
    BeerAlcohol,
    BeerBlg,
    ColorFull,
    ColorHex,
    ColorSafe,
    CurrencyShort,
    CurrencyLong,
    DatetimeMonth,
    DatetimeDay,
    DatetimeWeekDay,
    DatetimeYear,
    DatetimeHour,
    DatetimeMinute,
    DatetimeSecond,
    DatetimeNanosecond,
    DatetimeTimezone,
    DatetimeTimezoneFull,
    DatetimeTimezoneAbv,
    DatetimeTimezoneOffset,
    FileMimeType,
    FileExtension,
    HackerPhrase,
    HackerAbbreviation,
    HackerAdjective,
    HackerNoun,
    HackerVerb,
    HackerIngverb,
    HipsterWord,
    JobTitle,
    JobDescriptor,
    JobLevel,
    LanguageRandom,
    LanguageAbbreviation,
    LanguageProgramming,
    LogLevelGeneral,
    LogLevelSyslog,
    LogLevelApache,
    PaymentCreditCardType,
    PaymentCreditCardNumber,
    PaymentCreditCardLuhnNumber,
    PaymentCreditCardExp,
    PaymentCreditCardCvv,
    PersonSsn,
    PersonGender,
    UserAgentChrome,
    UserAgentFirefox,
    UserAgentSafari,
    UserAgentOpera,
    UserAgentLinuxPlatformToken,
    UserAgentMacPlatformToken,
    UserAgentWindowsPlatformToken,
    UserAgentRandomPlatform,
    VehicleType,
    VehicleFuel,
    VehicleTransmissionGear,
    VehicleCarMaker,
    VehicleCarModel,
    WordsWord,
    WordsQuestion,
    WordsQuote,
    ColorRgb,
    CurrencyPrice,
    DateTimeDate,
    HipsterSentence,
    HipsterParagraph,
    ImageUrl,
    PasswordGenerate,
    WordsSentence,
    WordsParagraph,
    GeneratorGenerate,
    Fixed(String),
}


impl TextGen {
    /// What is known of a result of this function: a `Fixed` generator
    /// returns exactly its stored text, the rest draw random values.
    pub open spec fn post(self, r: Seq<char>) -> bool {
        match self {
            TextGen::Fixed(s) => r == s@,
            _ => true,
        }
    }

    /// Invoke the native function once.
    pub fn call(&self) -> (r: String)
        ensures
            self.post(r@),
    {
        match self {
            TextGen::AddressStreet => fakes::address_street(),
            TextGen::AddressStreetNumber => fakes::address_street_number(),
            TextGen::AddressStreetPrefix => fakes::address_street_prefix(),
            TextGen::AddressStreetName => fakes::address_street_name(),
            TextGen::AddressStreetSuffix => fakes::address_street_suffix(),
            TextGen::AddressCity => fakes::address_city(),
            TextGen::AddressState => fakes::address_state(),
            TextGen::AddressStateAbr => fakes::address_state_abr(),
            TextGen::AddressZip => fakes::address_zip(),
            TextGen::AddressCountry => fakes::address_country(),
            TextGen::AddressCountryAbr => fakes::address_country_abr(),
            TextGen::NameFull => fakes::name_full(),
            TextGen::NameFirst => fakes::name_first(),
            TextGen::NameLast => fakes::name_last(),
            TextGen::NamePrefix => fakes::name_prefix(),
            TextGen::NameSuffix => fakes::name_suffix(),
            TextGen::Company => fakes::company(),
            TextGen::CompanySuffix => fakes::company_suffix(),
            TextGen::CompanyBuzzword => fakes::company_buzzword(),
            TextGen::CompanyBs => fakes::company_bs(),
            TextGen::ContactPhone => fakes::contact_phone(),
            TextGen::ContactPhoneFormatted => fakes::contact_phone_formatted(),
            TextGen::ContactEmail => fakes::contact_email(),
            TextGen::InternetDomainName => fakes::internet_domain_name(),
            TextGen::InternetHttpMethod => fakes::internet_http_method(),
            TextGen::InternetDomainSuffix => fakes::internet_domain_suffix(),
            TextGen::InternetIpv4Address => fakes::internet_ipv4_address(),
            TextGen::InternetIpv6Address => fakes::internet_ipv6_address(),
            TextGen::InternetMacAddress => fakes::internet_mac_address(),
            TextGen::InternetUsername => fakes::internet_username(),
            TextGen::UniqueUuidV1 => fakes::unique_uuid_v1(),
            TextGen::UniqueUuidV4 => fakes::unique_uuid_v4(),
            TextGen::AnimalPetName => fakes::animal_pet_name(),
            TextGen::Animal => fakes::animal(),
            TextGen::AnimalFarm => fakes::animal_farm(),
            TextGen::AnimalCat => fakes::animal_cat(),
            TextGen::AnimalDog => fakes::animal_dog(),
            TextGen::BeerName => fakes::beer_name(),
            TextGen::BeerStyle => fakes::beer_style(),
            TextGen::BeerHop => fakes::beer_hop(),
            TextGen::BeerYeast => fakes::beer_yeast(),
            TextGen::BeerMalt => fakes::beer_malt(),
            TextGen::BeerIbu => fakes::beer_ibu(),
            TextGen::BeerAlcohol => fakes::beer_alcohol(),
            TextGen::BeerBlg => fakes::beer_blg(),
            TextGen::ColorFull => fakes::color_full(),
            TextGen::ColorHex => fakes::color_hex(),
            TextGen::ColorSafe => fakes::color_safe(),
            TextGen::CurrencyShort => fakes::currency_short(),
            TextGen::CurrencyLong => fakes::currency_long(),
            TextGen::DatetimeMonth => fakes::datetime_month(),
            TextGen::DatetimeDay => fakes::datetime_day(),
            TextGen::DatetimeWeekDay => fakes::datetime_week_day(),
            TextGen::DatetimeYear => fakes::datetime_year(),
            TextGen::DatetimeHour => fakes::datetime_hour(),
            TextGen::DatetimeMinute => fakes::datetime_minute(),
            TextGen::DatetimeSecond => fakes::datetime_second(),
            TextGen::DatetimeNanosecond => fakes::datetime_nanosecond(),
            TextGen::DatetimeTimezone => fakes::datetime_timezone(),
            TextGen::DatetimeTimezoneFull => fakes::datetime_timezone_full(),
            TextGen::DatetimeTimezoneAbv => fakes::datetime_timezone_abv(),
            TextGen::DatetimeTimezoneOffset => fakes::datetime_timezone_offset(),
            TextGen::FileMimeType => fakes::file_mime_type(),
            TextGen::FileExtension => fakes::file_extension(),
            TextGen::HackerPhrase => fakes::hacker_phrase(),
            TextGen::HackerAbbreviation => fakes::hacker_abbreviation(),
            TextGen::HackerAdjective => fakes::hacker_adjective(),
            TextGen::HackerNoun => fakes::hacker_noun(),
            TextGen::HackerVerb => fakes::hacker_verb(),
            TextGen::HackerIngverb => fakes::hacker_ingverb(),
            TextGen::HipsterWord => fakes::hipster_word(),
            TextGen::JobTitle => fakes::job_title(),
            TextGen::JobDescriptor => fakes::job_descriptor(),
            TextGen::JobLevel => fakes::job_level(),
            TextGen::LanguageRandom => fakes::language_random(),
            TextGen::LanguageAbbreviation => fakes::language_abbreviation(),
            TextGen::LanguageProgramming => fakes::language_programming(),
            TextGen::LogLevelGeneral => fakes::log_level_general(),
            TextGen::LogLevelSyslog => fakes::log_level_syslog(),
            TextGen::LogLevelApache => fakes::log_level_apache(),
            TextGen::PaymentCreditCardType => fakes::payment_credit_card_type(),
            TextGen::PaymentCreditCardNumber => fakes::payment_credit_card_number(),
            TextGen::PaymentCreditCardLuhnNumber => fakes::payment_credit_card_luhn_number(),
            TextGen::PaymentCreditCardExp => fakes::payment_credit_card_exp(),
            TextGen::PaymentCreditCardCvv => fakes::payment_credit_card_cvv(),
            TextGen::PersonSsn => fakes::person_ssn(),
            TextGen::PersonGender => fakes::person_gender(),
            TextGen::UserAgentChrome => fakes::user_agent_chrome(),
            TextGen::UserAgentFirefox => fakes::user_agent_firefox(),
            TextGen::UserAgentSafari => fakes::user_agent_safari(),
            TextGen::UserAgentOpera => fakes::user_agent_opera(),
            TextGen::UserAgentLinuxPlatformToken => fakes::user_agent_linux_platform_token(),
            TextGen::UserAgentMacPlatformToken => fakes::user_agent_mac_platform_token(),
            TextGen::UserAgentWindowsPlatformToken => fakes::user_agent_windows_platform_token(),
            TextGen::UserAgentRandomPlatform => fakes::user_agent_random_platform(),
            TextGen::VehicleType => fakes::vehicle_type(),
            TextGen::VehicleFuel => fakes::vehicle_fuel(),
            TextGen::VehicleTransmissionGear => fakes::vehicle_transmission_gear(),
            TextGen::VehicleCarMaker => fakes::vehicle_car_maker(),
            TextGen::VehicleCarModel => fakes::vehicle_car_model(),
            TextGen::WordsWord => fakes::words_word(),
            TextGen::WordsQuestion => fakes::words_question(),
            TextGen::WordsQuote => fakes::words_quote(),
            TextGen::ColorRgb => fakes::color_rgb_text(),
            TextGen::CurrencyPrice => fakes::currency_price_text(0, 1000),
            TextGen::DateTimeDate => fakes::datetime_date_text(),
            TextGen::HipsterSentence => fakes::hipster_sentence(5),
            TextGen::HipsterParagraph => fakes::hipster_paragraph(3, 5, 10, String::from_str(" ")),
            TextGen::ImageUrl => fakes::image_url(640, 480),
            TextGen::PasswordGenerate => fakes::password_generate(true, true, true, 16),
            TextGen::WordsSentence => fakes::words_sentence(10),
            TextGen::WordsParagraph => fakes::words_paragraph(3, 5, 10, String::from_str(" ")),
            TextGen::GeneratorGenerate => fakes::generator_full_name(),
            TextGen::Fixed(s) => s.clone(),
        }
    }
}

/// A zero-argument native function returning a 64-bit integer.
#[derive(Debug, Clone, Copy, PartialEq, Eq)]
pub enum IntGen {
    StatusCodeSimple,
    StatusCodeGeneral,
    Fixed(i64),
}

impl IntGen {
    /// What is known of a result of this function.
    pub open spec fn post(self, r: i64) -> bool {
        match self {
            IntGen::Fixed(c) => r == c,
            _ => true,
        }
    }

    /// Invoke the native function once.
    pub fn call(&self) -> (r: i64)
        ensures
            self.post(r),
    {
        match self {
            IntGen::StatusCodeSimple => fakes::status_code_simple() as i64,
            IntGen::StatusCodeGeneral => fakes::status_code_general() as i64,
            IntGen::Fixed(c) => *c,
        }
    }
}

/// A zero-argument native function returning a 64-bit float, carried as
/// its IEEE 754 bit pattern.
#[derive(Debug, Clone, Copy, PartialEq, Eq)]
pub enum FloatGen {
    AddressLatitude,
    AddressLongitude,
    FixedBits(u64),
}

impl FloatGen {
    /// What is known of a result of this function.
    pub open spec fn post(self, r: u64) -> bool {
        match self {
            FloatGen::FixedBits(c) => r == c,
            _ => true,
        }
    }

    /// Invoke the native function once. The two coordinate generators
    /// draw a 32-bit float, which is widened exactly to a double.
    pub fn call(&self) -> (r: u64)
        ensures
            self.post(r),
    {
        match self {
            FloatGen::AddressLatitude => widen_f32_bits(fakes::address_latitude_bits()),
            FloatGen::AddressLongitude => widen_f32_bits(fakes::address_longitude_bits()),
            FloatGen::FixedBits(c) => *c,
        }
    }
}

/// A zero-argument native function returning a boolean.
#[derive(Debug, Clone, Copy, PartialEq, Eq)]
pub enum BoolGen {
    Random,
    Fixed(bool),
}

impl BoolGen {
    /// What is known of a result of this function.
    pub open spec fn post(self, r: bool) -> bool {
        match self {
            BoolGen::Fixed(c) => r == c,
            _ => true,
        }
    }

    /// Invoke the native function once.
    pub fn call(&self) -> (r: bool)
        ensures
            self.post(r),
    {
        match self {
            BoolGen::Random => fakes::random_bool(),
            BoolGen::Fixed(c) => *c,
        }
    }
}

/// A native function of two 64-bit float arguments returning a 64-bit
/// float, all carried as IEEE 754 bit patterns.
///
/// The catalog's own two-argument natives compute on floats, which this
/// library does not hold, so they are registered by the embedding layer;
/// the variants here are the pair functions the library itself offers,
/// defined exactly on the bit patterns.
#[derive(Debug, Clone, Copy, PartialEq, Eq)]
pub enum PairGen {
    /// Returns its first argument unchanged.
    First,
    /// Returns its second argument unchanged.
    Second,
    /// Returns whichever argument is smaller as an unsigned integer; on
    /// bit patterns of nonnegative finite doubles that is the
    /// numerically smaller double.
    LesserBits,
    /// Returns a fixed value whatever the arguments are.
    FixedBits(u64),
}

impl PairGen {
    /// What is known of a result of this function: every variant is
    /// deterministic, so the result is pinned down exactly.
    pub open spec fn post(self, a: u64, b: u64, r: u64) -> bool {
        match self {
            PairGen::First => r == a,
            PairGen::Second => r == b,
            PairGen::LesserBits => r == if a <= b { a } else { b },
            PairGen::FixedBits(c) => r == c,
        }
    }

    /// Invoke the native function on one pair of arguments.
    pub fn call(&self, a: u64, b: u64) -> (r: u64)
        ensures
            self.post(a, b, r),
    {
        match self {
            PairGen::First => a,
            PairGen::Second => b,
            PairGen::LesserBits => if a <= b { a } else { b },
            PairGen::FixedBits(c) => *c,
        }
    }
}

} // verus!
