//! Trusted wrappers around the generator catalog's native functions.
//!
//! Every function here draws from `fakeit`, whose results depend on a
//! process-global random source, so no wrapper states anything about the
//! value it returns: callers are verified for every outcome.

use vstd::prelude::*;

verus! {

/// Relies on `fakeit::address::street`: draws a random value.
#[verifier::external_body]
pub(crate) fn address_street() -> String {
    fakeit::address::street()
}

/// Relies on `fakeit::address::street_number`: draws a random value.
#[verifier::external_body]
pub(crate) fn address_street_number() -> String {
    fakeit::address::street_number()
}

/// Relies on `fakeit::address::street_prefix`: draws a random value.
#[verifier::external_body]
pub(crate) fn address_street_prefix() -> String {
    fakeit::address::street_prefix()
}

/// Relies on `fakeit::address::street_name`: draws a random value.
#[verifier::external_body]
pub(crate) fn address_street_name() -> String {
    fakeit::address::street_name()
}

/// Relies on `fakeit::address::street_suffix`: draws a random value.
#[verifier::external_body]
pub(crate) fn address_street_suffix() -> String {
    fakeit::address::street_suffix()
}

/// Relies on `fakeit::address::city`: draws a random value.
#[verifier::external_body]
pub(crate) fn address_city() -> String {
    fakeit::address::city()
}

/// Relies on `fakeit::address::state`: draws a random value.
#[verifier::external_body]
pub(crate) fn address_state() -> String {
    fakeit::address::state()
}

/// Relies on `fakeit::address::state_abr`: draws a random value.
#[verifier::external_body]
pub(crate) fn address_state_abr() -> String {
    fakeit::address::state_abr()
}

/// Relies on `fakeit::address::zip`: draws a random value.
#[verifier::external_body]
pub(crate) fn address_zip() -> String {
    fakeit::address::zip()
}

/// Relies on `fakeit::address::country`: draws a random value.
#[verifier::external_body]
pub(crate) fn address_country() -> String {
    fakeit::address::country()
}

/// Relies on `fakeit::address::country_abr`: draws a random value.
#[verifier::external_body]
pub(crate) fn address_country_abr() -> String {
    fakeit::address::country_abr()
}

/// Relies on `fakeit::name::full`: draws a random value.
#[verifier::external_body]
pub(crate) fn name_full() -> String {
    fakeit::name::full()
}

/// Relies on `fakeit::name::first`: draws a random value.
#[verifier::external_body]
pub(crate) fn name_first() -> String {
    fakeit::name::first()
}

/// Relies on `fakeit::name::last`: draws a random value.
#[verifier::external_body]
pub(crate) fn name_last() -> String {
    fakeit::name::last()
}

/// Relies on `fakeit::name::prefix`: draws a random value.
#[verifier::external_body]
pub(crate) fn name_prefix() -> String {
    fakeit::name::prefix()
}

/// Relies on `fakeit::name::suffix`: draws a random value.
#[verifier::external_body]
pub(crate) fn name_suffix() -> String {
    fakeit::name::suffix()
}

/// Relies on `fakeit::company::company`: draws a random value.
#[verifier::external_body]
pub(crate) fn company() -> String {
    fakeit::company::company()
}

/// Relies on `fakeit::company::company_suffix`: draws a random value.
#[verifier::external_body]
pub(crate) fn company_suffix() -> String {
    fakeit::company::company_suffix()
}

/// Relies on `fakeit::company::buzzword`: draws a random value.
#[verifier::external_body]
pub(crate) fn company_buzzword() -> String {
    fakeit::company::buzzword()
}

/// Relies on `fakeit::company::bs`: draws a random value.
#[verifier::external_body]
pub(crate) fn company_bs() -> String {
    fakeit::company::bs()
}

/// Relies on `fakeit::contact::phone`: draws a random value.
#[verifier::external_body]
pub(crate) fn contact_phone() -> String {
    fakeit::contact::phone()
}

/// Relies on `fakeit::contact::phone_formatted`: draws a random value.
#[verifier::external_body]
pub(crate) fn contact_phone_formatted() -> String {
    fakeit::contact::phone_formatted()
}

/// Relies on `fakeit::contact::email`: draws a random value.
#[verifier::external_body]
pub(crate) fn contact_email() -> String {
    fakeit::contact::email()
}

/// Relies on `fakeit::internet::domain_name`: draws a random value.
#[verifier::external_body]
pub(crate) fn internet_domain_name() -> String {
    fakeit::internet::domain_name()
}

/// Relies on `fakeit::internet::http_method`: draws a random value.
#[verifier::external_body]
pub(crate) fn internet_http_method() -> String {
    fakeit::internet::http_method()
}

/// Relies on `fakeit::internet::domain_suffix`: draws a random value.
#[verifier::external_body]
pub(crate) fn internet_domain_suffix() -> String {
    fakeit::internet::domain_suffix()
}

/// Relies on `fakeit::internet::ipv4_address`: draws a random value.
#[verifier::external_body]
pub(crate) fn internet_ipv4_address() -> String {
    fakeit::internet::ipv4_address()
}

/// Relies on `fakeit::internet::ipv6_address`: draws a random value.
#[verifier::external_body]
pub(crate) fn internet_ipv6_address() -> String {
    fakeit::internet::ipv6_address()
}

/// Relies on `fakeit::internet::mac_address`: draws a random value.
#[verifier::external_body]
pub(crate) fn internet_mac_address() -> String {
    fakeit::internet::mac_address()
}

/// Relies on `fakeit::internet::username`: draws a random value.
#[verifier::external_body]
pub(crate) fn internet_username() -> String {
    fakeit::internet::username()
}

/// Relies on `fakeit::unique::uuid_v1`: draws a random value.
#[verifier::external_body]
pub(crate) fn unique_uuid_v1() -> String {
    fakeit::unique::uuid_v1()
}

/// Relies on `fakeit::unique::uuid_v4`: draws a random value.
#[verifier::external_body]
pub(crate) fn unique_uuid_v4() -> String {
    fakeit::unique::uuid_v4()
}

/// Relies on `fakeit::animal::pet_name`: draws a random value.
#[verifier::external_body]
pub(crate) fn animal_pet_name() -> String {
    fakeit::animal::pet_name()
}

/// Relies on `fakeit::animal::animal`: draws a random value.
#[verifier::external_body]
pub(crate) fn animal() -> String {
    fakeit::animal::animal()
}

/// Relies on `fakeit::animal::farm`: draws a random value.
#[verifier::external_body]
pub(crate) fn animal_farm() -> String {
    fakeit::animal::farm()
}

/// Relies on `fakeit::animal::cat`: draws a random value.
#[verifier::external_body]
pub(crate) fn animal_cat() -> String {
    fakeit::animal::cat()
}

/// Relies on `fakeit::animal::dog`: draws a random value.
#[verifier::external_body]
pub(crate) fn animal_dog() -> String {
    fakeit::animal::dog()
}

/// Relies on `fakeit::beer::name`: draws a random value.
#[verifier::external_body]
pub(crate) fn beer_name() -> String {
    fakeit::beer::name()
}

/// Relies on `fakeit::beer::style`: draws a random value.
#[verifier::external_body]
pub(crate) fn beer_style() -> String {
    fakeit::beer::style()
}

/// Relies on `fakeit::beer::hop`: draws a random value.
#[verifier::external_body]
pub(crate) fn beer_hop() -> String {
    fakeit::beer::hop()
}

/// Relies on `fakeit::beer::yeast`: draws a random value.
#[verifier::external_body]
pub(crate) fn beer_yeast() -> String {
    fakeit::beer::yeast()
}

/// Relies on `fakeit::beer::malt`: draws a random value.
#[verifier::external_body]
pub(crate) fn beer_malt() -> String {
    fakeit::beer::malt()
}

/// Relies on `fakeit::beer::ibu`: draws a random value.
#[verifier::external_body]
pub(crate) fn beer_ibu() -> String {
    fakeit::beer::ibu()
}

/// Relies on `fakeit::beer::alcohol`: draws a random value.
#[verifier::external_body]
pub(crate) fn beer_alcohol() -> String {
    fakeit::beer::alcohol()
}

/// Relies on `fakeit::beer::blg`: draws a random value.
#[verifier::external_body]
pub(crate) fn beer_blg() -> String {
    fakeit::beer::blg()
}

/// Relies on `fakeit::color::full`: draws a random value.
#[verifier::external_body]
pub(crate) fn color_full() -> String {
    fakeit::color::full()
}

/// Relies on `fakeit::color::hex`: draws a random value.
#[verifier::external_body]
pub(crate) fn color_hex() -> String {
    fakeit::color::hex()
}

/// Relies on `fakeit::color::safe`: draws a random value.
#[verifier::external_body]
pub(crate) fn color_safe() -> String {
    fakeit::color::safe()
}

/// Relies on `fakeit::currency::short`: draws a random value.
#[verifier::external_body]
pub(crate) fn currency_short() -> String {
    fakeit::currency::short()
}

/// Relies on `fakeit::currency::long`: draws a random value.
#[verifier::external_body]
pub(crate) fn currency_long() -> String {
    fakeit::currency::long()
}

/// Relies on `fakeit::datetime::month`: draws a random value.
#[verifier::external_body]
pub(crate) fn datetime_month() -> String {
    fakeit::datetime::month()
}

/// Relies on `fakeit::datetime::day`: draws a random value.
#[verifier::external_body]
pub(crate) fn datetime_day() -> String {
    fakeit::datetime::day()
}

/// Relies on `fakeit::datetime::week_day`: draws a random value.
#[verifier::external_body]
pub(crate) fn datetime_week_day() -> String {
    fakeit::datetime::week_day()
}

/// Relies on `fakeit::datetime::year`: draws a random value.
#[verifier::external_body]
pub(crate) fn datetime_year() -> String {
    fakeit::datetime::year()
}

/// Relies on `fakeit::datetime::hour`: draws a random value.
#[verifier::external_body]
pub(crate) fn datetime_hour() -> String {
    fakeit::datetime::hour()
}

/// Relies on `fakeit::datetime::minute`: draws a random value.
#[verifier::external_body]
pub(crate) fn datetime_minute() -> String {
    fakeit::datetime::minute()
}

/// Relies on `fakeit::datetime::second`: draws a random value.
#[verifier::external_body]
pub(crate) fn datetime_second() -> String {
    fakeit::datetime::second()
}

/// Relies on `fakeit::datetime::nanosecond`: draws a random value.
#[verifier::external_body]
pub(crate) fn datetime_nanosecond() -> String {
    fakeit::datetime::nanosecond()
}

/// Relies on `fakeit::datetime::timezone`: draws a random value.
#[verifier::external_body]
pub(crate) fn datetime_timezone() -> String {
    fakeit::datetime::timezone()
}

/// Relies on `fakeit::datetime::timezone_full`: draws a random value.
#[verifier::external_body]
pub(crate) fn datetime_timezone_full() -> String {
    fakeit::datetime::timezone_full()
}

/// Relies on `fakeit::datetime::timezone_abv`: draws a random value.
#[verifier::external_body]
pub(crate) fn datetime_timezone_abv() -> String {
    fakeit::datetime::timezone_abv()
}

/// Relies on `fakeit::datetime::timezone_offset`: draws a random value.
#[verifier::external_body]
pub(crate) fn datetime_timezone_offset() -> String {
    fakeit::datetime::timezone_offset()
}

/// Relies on `fakeit::file::mime_type`: draws a random value.
#[verifier::external_body]
pub(crate) fn file_mime_type() -> String {
    fakeit::file::mime_type()
}

/// Relies on `fakeit::file::extension`: draws a random value.
#[verifier::external_body]
pub(crate) fn file_extension() -> String {
    fakeit::file::extension()
}

/// Relies on `fakeit::hacker::phrase`: draws a random value.
#[verifier::external_body]
pub(crate) fn hacker_phrase() -> String {
    fakeit::hacker::phrase()
}

/// Relies on `fakeit::hacker::abbreviation`: draws a random value.
#[verifier::external_body]
pub(crate) fn hacker_abbreviation() -> String {
    fakeit::hacker::abbreviation()
}

/// Relies on `fakeit::hacker::adjective`: draws a random value.
#[verifier::external_body]
pub(crate) fn hacker_adjective() -> String {
    fakeit::hacker::adjective()
}

/// Relies on `fakeit::hacker::noun`: draws a random value.
#[verifier::external_body]
pub(crate) fn hacker_noun() -> String {
    fakeit::hacker::noun()
}

/// Relies on `fakeit::hacker::verb`: draws a random value.
#[verifier::external_body]
pub(crate) fn hacker_verb() -> String {
    fakeit::hacker::verb()
}

/// Relies on `fakeit::hacker::ingverb`: draws a random value.
#[verifier::external_body]
pub(crate) fn hacker_ingverb() -> String {
    fakeit::hacker::ingverb()
}

/// Relies on `fakeit::hipster::word`: draws a random value.
#[verifier::external_body]
pub(crate) fn hipster_word() -> String {
    fakeit::hipster::word()
}

/// Relies on `fakeit::job::title`: draws a random value.
#[verifier::external_body]
pub(crate) fn job_title() -> String {
    fakeit::job::title()
}

/// Relies on `fakeit::job::descriptor`: draws a random value.
#[verifier::external_body]
pub(crate) fn job_descriptor() -> String {
    fakeit::job::descriptor()
}

/// Relies on `fakeit::job::level`: draws a random value.
#[verifier::external_body]
pub(crate) fn job_level() -> String {
    fakeit::job::level()
}

/// Relies on `fakeit::language::random`: draws a random value.
#[verifier::external_body]
pub(crate) fn language_random() -> String {
    fakeit::language::random()
}

/// Relies on `fakeit::language::abbreviation`: draws a random value.
#[verifier::external_body]
pub(crate) fn language_abbreviation() -> String {
    fakeit::language::abbreviation()
}

/// Relies on `fakeit::language::programming`: draws a random value.
#[verifier::external_body]
pub(crate) fn language_programming() -> String {
    fakeit::language::programming()
}

/// Relies on `fakeit::log_level::general`: draws a random value.
#[verifier::external_body]
pub(crate) fn log_level_general() -> String {
    fakeit::log_level::general()
}

/// Relies on `fakeit::log_level::syslog`: draws a random value.
#[verifier::external_body]
pub(crate) fn log_level_syslog() -> String {
    fakeit::log_level::syslog()
}

/// Relies on `fakeit::log_level::apache`: draws a random value.
#[verifier::external_body]
pub(crate) fn log_level_apache() -> String {
    fakeit::log_level::apache()
}

/// Relies on `fakeit::payment::credit_card_type`: draws a random value.
#[verifier::external_body]
pub(crate) fn payment_credit_card_type() -> String {
    fakeit::payment::credit_card_type()
}

/// Relies on `fakeit::payment::credit_card_number`: draws a random value.
#[verifier::external_body]
pub(crate) fn payment_credit_card_number() -> String {
    fakeit::payment::credit_card_number()
}

/// Relies on `fakeit::payment::credit_card_luhn_number`: draws a random value.
#[verifier::external_body]
pub(crate) fn payment_credit_card_luhn_number() -> String {
    fakeit::payment::credit_card_luhn_number()
}

/// Relies on `fakeit::payment::credit_card_exp`: draws a random value.
#[verifier::external_body]
pub(crate) fn payment_credit_card_exp() -> String {
    fakeit::payment::credit_card_exp()
}

/// Relies on `fakeit::payment::credit_card_cvv`: draws a random value.
#[verifier::external_body]
pub(crate) fn payment_credit_card_cvv() -> String {
    fakeit::payment::credit_card_cvv()
}

/// Relies on `fakeit::person::ssn`: draws a random value.
#[verifier::external_body]
pub(crate) fn person_ssn() -> String {
    fakeit::person::ssn()
}

/// Relies on `fakeit::person::gender`: draws a random value.
#[verifier::external_body]
pub(crate) fn person_gender() -> String {
    fakeit::person::gender()
}

/// Relies on `fakeit::user_agent::chrome`: draws a random value.
#[verifier::external_body]
pub(crate) fn user_agent_chrome() -> String {
    fakeit::user_agent::chrome()
}

/// Relies on `fakeit::user_agent::firefox`: draws a random value.
#[verifier::external_body]
pub(crate) fn user_agent_firefox() -> String {
    fakeit::user_agent::firefox()
}

/// Relies on `fakeit::user_agent::safari`: draws a random value.
#[verifier::external_body]
pub(crate) fn user_agent_safari() -> String {
    fakeit::user_agent::safari()
}

/// Relies on `fakeit::user_agent::opera`: draws a random value.
#[verifier::external_body]
pub(crate) fn user_agent_opera() -> String {
    fakeit::user_agent::opera()
}

/// Relies on `fakeit::user_agent::linux_platform_token`: draws a random value.
#[verifier::external_body]
pub(crate) fn user_agent_linux_platform_token() -> String {
    fakeit::user_agent::linux_platform_token()
}

/// Relies on `fakeit::user_agent::mac_platform_token`: draws a random value.
#[verifier::external_body]
pub(crate) fn user_agent_mac_platform_token() -> String {
    fakeit::user_agent::mac_platform_token()
}

/// Relies on `fakeit::user_agent::windows_platform_token`: draws a random value.
#[verifier::external_body]
pub(crate) fn user_agent_windows_platform_token() -> String {
    fakeit::user_agent::windows_platform_token()
}

/// Relies on `fakeit::user_agent::random_platform`: draws a random value.
#[verifier::external_body]
pub(crate) fn user_agent_random_platform() -> String {
    fakeit::user_agent::random_platform()
}

/// Relies on `fakeit::vehicle::vehicle_type`: draws a random value.
#[verifier::external_body]
pub(crate) fn vehicle_type() -> String {
    fakeit::vehicle::vehicle_type()
}

/// Relies on `fakeit::vehicle::fuel`: draws a random value.
#[verifier::external_body]
pub(crate) fn vehicle_fuel() -> String {
    fakeit::vehicle::fuel()
}

/// Relies on `fakeit::vehicle::transmission_gear`: draws a random value.
#[verifier::external_body]
pub(crate) fn vehicle_transmission_gear() -> String {
    fakeit::vehicle::transmission_gear()
}

/// Relies on `fakeit::vehicle::car_maker`: draws a random value.
#[verifier::external_body]
pub(crate) fn vehicle_car_maker() -> String {
    fakeit::vehicle::car_maker()
}

/// Relies on `fakeit::vehicle::car_model`: draws a random value.
#[verifier::external_body]
pub(crate) fn vehicle_car_model() -> String {
    fakeit::vehicle::car_model()
}

/// Relies on `fakeit::words::word`: draws a random value.
#[verifier::external_body]
pub(crate) fn words_word() -> String {
    fakeit::words::word()
}

/// Relies on `fakeit::words::question`: draws a random value.
#[verifier::external_body]
pub(crate) fn words_question() -> String {
    fakeit::words::question()
}

/// Relies on `fakeit::words::quote`: draws a random value.
#[verifier::external_body]
pub(crate) fn words_quote() -> String {
    fakeit::words::quote()
}

/// Relies on `fakeit::color::rgb`: draws three random channel values;
/// the wrapper renders them as `[r, g, b]`.
#[verifier::external_body]
pub(crate) fn color_rgb_text() -> String {
    let c = fakeit::color::rgb();
    format!("[{}, {}, {}]", c[0], c[1], c[2])
}

/// Relies on `fakeit::currency::price`: draws a random price between the
/// two bounds; the wrapper renders it with two decimal places. The
/// bounds must be strictly ordered: the draw takes them as a half-open
/// range and does not return on an empty one.
#[verifier::external_body]
pub(crate) fn currency_price_text(low: u32, high: u32) -> String
    requires
        low < high,
{
    format!("{:.2}", fakeit::currency::price(low.into(), high.into()))
}

/// Relies on `fakeit::datetime::date`: draws a random date-time; the
/// wrapper renders it with the crate's debug formatting.
#[verifier::external_body]
pub(crate) fn datetime_date_text() -> String {
    format!("{:?}", fakeit::datetime::date())
}

/// Relies on `fakeit::hipster::sentence`: draws a sentence of the given
/// number of words.
#[verifier::external_body]
pub(crate) fn hipster_sentence(word_count: i64) -> String {
    fakeit::hipster::sentence(word_count)
}

/// Relies on `fakeit::hipster::paragraph`: draws the given number of
/// sentences, joined by the separator.
#[verifier::external_body]
pub(crate) fn hipster_paragraph(count: i64, sentence_count: i64, word_count: i64, separator: String) -> String {
    fakeit::hipster::paragraph(count, sentence_count, word_count, separator)
}

/// Relies on `fakeit::image::url`: builds a random placeholder image URL
/// of the given dimensions.
#[verifier::external_body]
pub(crate) fn image_url(width: i64, height: i64) -> String {
    fakeit::image::url(width, height)
}

/// Relies on `fakeit::password::generate`: draws a random password with
/// the requested character classes and length.
#[verifier::external_body]
pub(crate) fn password_generate(upper: bool, numeric: bool, special: bool, length: i8) -> String {
    fakeit::password::generate(upper, numeric, special, length)
}

/// Relies on `fakeit::words::sentence`: draws a sentence of the given
/// number of words.
#[verifier::external_body]
pub(crate) fn words_sentence(word_count: i64) -> String {
    fakeit::words::sentence(word_count)
}

/// Relies on `fakeit::words::paragraph`: draws the given number of
/// sentences, joined by the separator.
#[verifier::external_body]
pub(crate) fn words_paragraph(count: i64, sentence_count: i64, word_count: i64, separator: String) -> String {
    fakeit::words::paragraph(count, sentence_count, word_count, separator)
}

/// Relies on `fakeit::generator::generate`, applied to the one template
/// the catalog uses. The template is fixed here because that parser
/// requires balanced, ordered braces; it fills each placeholder with a
/// random value.
#[verifier::external_body]
pub(crate) fn generator_full_name() -> String {
    fakeit::generator::generate("{firstname} {lastname}".to_string())
}

/// Relies on `fakeit::bool_rand::bool`: draws a random boolean.
#[verifier::external_body]
pub(crate) fn random_bool() -> bool {
    fakeit::bool_rand::bool()
}

/// Relies on `fakeit::status_code::simple`: draws one of the common HTTP
/// status codes.
#[verifier::external_body]
pub(crate) fn status_code_simple() -> i16 {
    fakeit::status_code::simple()
}

/// Relies on `fakeit::status_code::general`: draws one of the general HTTP
/// status codes.
#[verifier::external_body]
pub(crate) fn status_code_general() -> i16 {
    fakeit::status_code::general()
}

/// Relies on `fakeit::address::latitude`: draws a random latitude as a
/// 32-bit float; the wrapper hands back its raw bit pattern.
#[verifier::external_body]
pub(crate) fn address_latitude_bits() -> u32 {
    fakeit::address::latitude().to_bits()
}

/// Relies on `fakeit::address::longitude`: draws a random longitude as a
/// 32-bit float; the wrapper hands back its raw bit pattern.
#[verifier::external_body]
pub(crate) fn address_longitude_bits() -> u32 {
    fakeit::address::longitude().to_bits()
}

} // verus!
