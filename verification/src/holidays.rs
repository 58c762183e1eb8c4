//! Public holidays by country: a fixed table of month-day dates and names
//! for each supported country, with a short default list for the rest.

use vstd::prelude::*;
use vstd::string::*;
use crate::inputs::HolidaysInput;
use crate::server::SchedulingServer;
use crate::text::{join_text, same_text};

verus! {

/// A public holiday: its `YYYY-MM-DD` date and its name.
#[derive(Debug)]
pub struct Holiday {
    pub date: String,
    pub name: String,
}

/// What `holidays_list` reports: the year used and its holidays.
#[derive(Debug)]
pub struct HolidayList {
    pub year: u32,
    pub holidays: Vec<Holiday>,
}

/// The `(-MM-DD, name)` holidays of an upper-case country code.
pub open spec fn holiday_table(code: Seq<char>) -> Seq<(Seq<char>, Seq<char>)> {
    if code == "KE"@ {
        seq![
            ("-01-01"@, "New Year's Day"@),
            ("-04-18"@, "Good Friday"@),
            ("-04-21"@, "Easter Monday"@),
            ("-05-01"@, "Labour Day"@),
            ("-06-01"@, "Madaraka Day"@),
            ("-10-10"@, "Huduma Day"@),
            ("-10-20"@, "Mashujaa Day"@),
            ("-12-12"@, "Jamhuri Day"@),
            ("-12-25"@, "Christmas Day"@),
            ("-12-26"@, "Boxing Day"@),
        ]
    } else if code == "US"@ {
        seq![
            ("-01-01"@, "New Year's Day"@),
            ("-01-20"@, "MLK Day"@),
            ("-02-17"@, "Presidents' Day"@),
            ("-05-26"@, "Memorial Day"@),
            ("-06-19"@, "Juneteenth"@),
            ("-07-04"@, "Independence Day"@),
            ("-09-01"@, "Labor Day"@),
            ("-11-27"@, "Thanksgiving"@),
            ("-12-25"@, "Christmas Day"@),
        ]
    } else if code == "GB"@ || code == "UK"@ {
        seq![
            ("-01-01"@, "New Year's Day"@),
            ("-04-18"@, "Good Friday"@),
            ("-04-21"@, "Easter Monday"@),
            ("-05-05"@, "Early May Bank Holiday"@),
            ("-05-26"@, "Spring Bank Holiday"@),
            ("-08-25"@, "Summer Bank Holiday"@),
            ("-12-25"@, "Christmas Day"@),
            ("-12-26"@, "Boxing Day"@),
        ]
    } else if code == "AE"@ || code == "SA"@ {
        seq![
            ("-01-01"@, "New Year's Day"@),
            ("-03-10"@, "Eid al-Fitr (approx)"@),
            ("-03-11"@, "Eid al-Fitr Day 2"@),
            ("-03-12"@, "Eid al-Fitr Day 3"@),
            ("-06-16"@, "Eid al-Adha (approx)"@),
            ("-06-17"@, "Eid al-Adha Day 2"@),
            ("-07-07"@, "Islamic New Year (approx)"@),
            ("-09-15"@, "Prophet's Birthday (approx)"@),
            ("-12-02"@, "UAE National Day"@),
        ]
    } else if code == "IN"@ {
        seq![
            ("-01-26"@, "Republic Day"@),
            ("-03-14"@, "Holi"@),
            ("-04-18"@, "Good Friday"@),
            ("-05-01"@, "May Day"@),
            ("-08-15"@, "Independence Day"@),
            ("-10-02"@, "Gandhi Jayanti"@),
            ("-10-20"@, "Diwali (approx)"@),
            ("-12-25"@, "Christmas Day"@),
        ]
    } else if code == "NG"@ {
        seq![
            ("-01-01"@, "New Year's Day"@),
            ("-05-01"@, "Workers' Day"@),
            ("-06-12"@, "Democracy Day"@),
            ("-10-01"@, "Independence Day"@),
            ("-12-25"@, "Christmas Day"@),
            ("-12-26"@, "Boxing Day"@),
        ]
    } else if code == "DE"@ {
        seq![
            ("-01-01"@, "Neujahr"@),
            ("-04-18"@, "Karfreitag"@),
            ("-04-21"@, "Ostermontag"@),
            ("-05-01"@, "Tag der Arbeit"@),
            ("-10-03"@, "Tag der Deutschen Einheit"@),
            ("-12-25"@, "Weihnachten"@),
            ("-12-26"@, "Zweiter Weihnachtstag"@),
        ]
    } else if code == "SG"@ {
        seq![
            ("-01-01"@, "New Year's Day"@),
            ("-01-29"@, "Chinese New Year"@),
            ("-04-18"@, "Good Friday"@),
            ("-05-01"@, "Labour Day"@),
            ("-08-09"@, "National Day"@),
            ("-10-20"@, "Deepavali (approx)"@),
            ("-12-25"@, "Christmas Day"@),
        ]
    } else if code == "UG"@ {
        seq![
            ("-01-01"@, "New Year's Day"@),
            ("-01-26"@, "NRM Liberation Day"@),
            ("-03-08"@, "International Women's Day"@),
            ("-05-01"@, "Labour Day"@),
            ("-06-03"@, "Martyrs' Day"@),
            ("-06-09"@, "National Heroes Day"@),
            ("-10-09"@, "Independence Day"@),
            ("-12-25"@, "Christmas Day"@),
        ]
    } else if code == "TZ"@ {
        seq![
            ("-01-01"@, "New Year's Day"@),
            ("-01-12"@, "Zanzibar Revolution Day"@),
            ("-04-07"@, "Karume Day"@),
            ("-04-26"@, "Union Day"@),
            ("-05-01"@, "Workers' Day"@),
            ("-07-07"@, "Saba Saba"@),
            ("-08-08"@, "Nane Nane (Farmers' Day)"@),
            ("-12-09"@, "Independence Day"@),
            ("-12-25"@, "Christmas Day"@),
        ]
    } else if code == "ET"@ {
        seq![
            ("-01-07"@, "Genna (Christmas)"@),
            ("-01-19"@, "Timkat (Epiphany)"@),
            ("-03-02"@, "Battle of Adwa"@),
            ("-05-01"@, "Labour Day"@),
            ("-05-05"@, "Patriots' Victory Day"@),
            ("-05-28"@, "Derg Downfall Day"@),
            ("-09-11"@, "Enkutatash (New Year)"@),
            ("-09-27"@, "Meskel"@),
        ]
    } else if code == "RW"@ {
        seq![
            ("-01-01"@, "New Year's Day"@),
            ("-02-01"@, "National Heroes Day"@),
            ("-04-07"@, "Genocide Memorial Day"@),
            ("-05-01"@, "Labour Day"@),
            ("-07-01"@, "Independence Day"@),
            ("-07-04"@, "Liberation Day"@),
            ("-08-15"@, "Assumption Day"@),
            ("-12-25"@, "Christmas Day"@),
        ]
    } else if code == "ZA"@ {
        seq![
            ("-01-01"@, "New Year's Day"@),
            ("-03-21"@, "Human Rights Day"@),
            ("-04-27"@, "Freedom Day"@),
            ("-05-01"@, "Workers' Day"@),
            ("-06-16"@, "Youth Day"@),
            ("-08-09"@, "National Women's Day"@),
            ("-09-24"@, "Heritage Day"@),
            ("-12-16"@, "Day of Reconciliation"@),
            ("-12-25"@, "Christmas Day"@),
        ]
    } else if code == "EG"@ {
        seq![
            ("-01-07"@, "Coptic Christmas"@),
            ("-01-25"@, "Revolution Day"@),
            ("-04-25"@, "Sinai Liberation Day"@),
            ("-05-01"@, "Labour Day"@),
            ("-07-23"@, "Revolution Day (1952)"@),
            ("-10-06"@, "Armed Forces Day"@),
        ]
    } else if code == "GH"@ {
        seq![
            ("-01-01"@, "New Year's Day"@),
            ("-03-06"@, "Independence Day"@),
            ("-05-01"@, "May Day"@),
            ("-05-25"@, "Africa Day"@),
            ("-07-01"@, "Republic Day"@),
            ("-09-21"@, "Kwame Nkrumah Memorial Day"@),
            ("-12-25"@, "Christmas Day"@),
        ]
    } else if code == "FR"@ {
        seq![
            ("-01-01"@, "Jour de l'An"@),
            ("-05-01"@, "Fête du Travail"@),
            ("-05-08"@, "Victoire 1945"@),
            ("-07-14"@, "Fête Nationale"@),
            ("-08-15"@, "Assomption"@),
            ("-11-01"@, "Toussaint"@),
            ("-11-11"@, "Armistice"@),
            ("-12-25"@, "Noël"@),
        ]
    } else if code == "JP"@ {
        seq![
            ("-01-01"@, "元日 (New Year)"@),
            ("-02-11"@, "建国記念の日 (Foundation Day)"@),
            ("-02-23"@, "天皇誕生日 (Emperor's Birthday)"@),
            ("-04-29"@, "昭和の日 (Showa Day)"@),
            ("-05-03"@, "憲法記念日 (Constitution Day)"@),
            ("-05-05"@, "こどもの日 (Children's Day)"@),
            ("-08-11"@, "山の日 (Mountain Day)"@),
            ("-11-03"@, "文化の日 (Culture Day)"@),
            ("-11-23"@, "勤労感謝の日 (Labour Day)"@),
        ]
    } else if code == "CN"@ {
        seq![
            ("-01-01"@, "元旦 (New Year)"@),
            ("-01-29"@, "春节 (Spring Festival)"@),
            ("-01-30"@, "春节 Day 2"@),
            ("-01-31"@, "春节 Day 3"@),
            ("-04-04"@, "清明节 (Qingming)"@),
            ("-05-01"@, "劳动节 (Labour Day)"@),
            ("-06-01"@, "端午节 (Dragon Boat)"@),
            ("-10-01"@, "国庆节 (National Day)"@),
            ("-10-02"@, "国庆节 Day 2"@),
            ("-10-03"@, "国庆节 Day 3"@),
        ]
    } else if code == "BR"@ {
        seq![
            ("-01-01"@, "Ano Novo"@),
            ("-02-17"@, "Carnaval"@),
            ("-04-21"@, "Tiradentes"@),
            ("-05-01"@, "Dia do Trabalho"@),
            ("-09-07"@, "Independência"@),
            ("-10-12"@, "Nossa Senhora Aparecida"@),
            ("-11-02"@, "Finados"@),
            ("-11-15"@, "Proclamação da República"@),
            ("-12-25"@, "Natal"@),
        ]
    } else if code == "AU"@ {
        seq![
            ("-01-01"@, "New Year's Day"@),
            ("-01-26"@, "Australia Day"@),
            ("-04-18"@, "Good Friday"@),
            ("-04-21"@, "Easter Monday"@),
            ("-04-25"@, "ANZAC Day"@),
            ("-06-09"@, "Queen's Birthday"@),
            ("-12-25"@, "Christmas Day"@),
            ("-12-26"@, "Boxing Day"@),
        ]
    } else if code == "CA"@ {
        seq![
            ("-01-01"@, "New Year's Day"@),
            ("-02-17"@, "Family Day"@),
            ("-04-18"@, "Good Friday"@),
            ("-05-19"@, "Victoria Day"@),
            ("-07-01"@, "Canada Day"@),
            ("-09-01"@, "Labour Day"@),
            ("-10-13"@, "Thanksgiving"@),
            ("-12-25"@, "Christmas Day"@),
        ]
    } else if code == "MX"@ {
        seq![
            ("-01-01"@, "Año Nuevo"@),
            ("-02-03"@, "Día de la Constitución"@),
            ("-03-17"@, "Natalicio de Benito Juárez"@),
            ("-05-01"@, "Día del Trabajo"@),
            ("-09-16"@, "Día de la Independencia"@),
            ("-11-17"@, "Revolución Mexicana"@),
            ("-12-25"@, "Navidad"@),
        ]
    } else {
        seq![
            ("-01-01"@, "New Year's Day"@),
            ("-05-01"@, "Labour Day"@),
            ("-12-25"@, "Christmas Day"@),
        ]
    }
}

/// The character of a decimal digit.
pub open spec fn digit_char(d: nat) -> char {
    (48 + d) as char
}

/// The decimal text of `n`, without leading zeros.
pub open spec fn decimal(n: nat) -> Seq<char>
    decreases n,
{
    if n < 10 {
        seq![digit_char(n)]
    } else {
        decimal(n / 10).push(digit_char(n % 10))
    }
}

/// The `(date, name)` texts of a list of holidays.
pub open spec fn holiday_views(v: Seq<Holiday>) -> Seq<(Seq<char>, Seq<char>)> {
    v.map_values(|h: Holiday| (h.date@, h.name@))
}

/// The table entries dated in `year`.
pub open spec fn dated(year: u32, t: Seq<(Seq<char>, Seq<char>)>) -> Seq<(Seq<char>, Seq<char>)> {
    t.map_values(|e: (Seq<char>, Seq<char>)| (decimal(year as nat) + e.0, e.1))
}

/// What `str::to_uppercase` gives for a text.
pub uninterp spec fn uppercased_text(s: Seq<char>) -> Seq<char>;

/// `s` with `a`-`z` turned into `A`-`Z` and every other character kept.
pub open spec fn ascii_upper(s: Seq<char>) -> Seq<char> {
    s.map_values(|c: char| if 'a' <= c && c <= 'z' { ((c as int) - 32) as char } else { c })
}

/// The country code a country is looked up by: its upper case.
pub open spec fn country_code(country: Seq<char>) -> Seq<char> {
    if vstd::utf8::is_ascii_chars(country) {
        ascii_upper(country)
    } else {
        uppercased_text(country)
    }
}

/// Calls `str::to_uppercase`: the text with every character mapped to its
/// Unicode upper case (which may change the length). The result is named;
/// of it the contract states only the ASCII part of Unicode's case table:
/// an ASCII text comes back with `a`-`z` as `A`-`Z` and nothing else changed.
#[verifier::external_body]
fn uppercase_text(s: &str) -> (r: String)
    ensures
        r@ == uppercased_text(s@),
        vstd::utf8::is_ascii_chars(s@) ==> r@ == ascii_upper(s@),
{
    s.to_uppercase()
}

/// The text of one decimal digit.
fn digit_text(d: u32) -> (r: &'static str)
    requires
        d < 10,
    ensures
        r@ == seq![digit_char(d as nat)],
{
    proof {
        reveal_strlit("0");
        reveal_strlit("1");
        reveal_strlit("2");
        reveal_strlit("3");
        reveal_strlit("4");
        reveal_strlit("5");
        reveal_strlit("6");
        reveal_strlit("7");
        reveal_strlit("8");
        reveal_strlit("9");
    }
    let r = match d {
        0 => "0",
        1 => "1",
        2 => "2",
        3 => "3",
        4 => "4",
        5 => "5",
        6 => "6",
        7 => "7",
        8 => "8",
        _ => "9",
    };
    assert(r@ =~= seq![digit_char(d as nat)]);
    r
}

/// The decimal text of `n`.
pub fn decimal_text(n: u32) -> (r: String)
    ensures
        r@ == decimal(n as nat),
    decreases n,
{
    if n < 10 {
        digit_text(n).to_owned()
    } else {
        let head = decimal_text(n / 10);
        let r = join_text(head.as_str(), digit_text(n % 10));
        assert(r@ =~= decimal(n as nat));
        r
    }
}

/// The table entries of an upper-case country code.
fn holiday_entries(code: &str) -> (r: Vec<(&'static str, &'static str)>)
    ensures
        r@.map_values(|p: (&'static str, &'static str)| (p.0@, p.1@)) == holiday_table(code@),
{
    if same_text(code, "KE") {
        let v: Vec<(&'static str, &'static str)> = vec![
            ("-01-01", "New Year's Day"),
            ("-04-18", "Good Friday"),
            ("-04-21", "Easter Monday"),
            ("-05-01", "Labour Day"),
            ("-06-01", "Madaraka Day"),
            ("-10-10", "Huduma Day"),
            ("-10-20", "Mashujaa Day"),
            ("-12-12", "Jamhuri Day"),
            ("-12-25", "Christmas Day"),
            ("-12-26", "Boxing Day"),
        ];
        assert(v@.map_values(|p: (&'static str, &'static str)| (p.0@, p.1@)) =~= holiday_table(code@));
        v
    } else if same_text(code, "US") {
        let v: Vec<(&'static str, &'static str)> = vec![
            ("-01-01", "New Year's Day"),
            ("-01-20", "MLK Day"),
            ("-02-17", "Presidents' Day"),
            ("-05-26", "Memorial Day"),
            ("-06-19", "Juneteenth"),
            ("-07-04", "Independence Day"),
            ("-09-01", "Labor Day"),
            ("-11-27", "Thanksgiving"),
            ("-12-25", "Christmas Day"),
        ];
        assert(v@.map_values(|p: (&'static str, &'static str)| (p.0@, p.1@)) =~= holiday_table(code@));
        v
    } else if same_text(code, "GB") || same_text(code, "UK") {
        let v: Vec<(&'static str, &'static str)> = vec![
            ("-01-01", "New Year's Day"),
            ("-04-18", "Good Friday"),
            ("-04-21", "Easter Monday"),
            ("-05-05", "Early May Bank Holiday"),
            ("-05-26", "Spring Bank Holiday"),
            ("-08-25", "Summer Bank Holiday"),
            ("-12-25", "Christmas Day"),
            ("-12-26", "Boxing Day"),
        ];
        assert(v@.map_values(|p: (&'static str, &'static str)| (p.0@, p.1@)) =~= holiday_table(code@));
        v
    } else if same_text(code, "AE") || same_text(code, "SA") {
        let v: Vec<(&'static str, &'static str)> = vec![
            ("-01-01", "New Year's Day"),
            ("-03-10", "Eid al-Fitr (approx)"),
            ("-03-11", "Eid al-Fitr Day 2"),
            ("-03-12", "Eid al-Fitr Day 3"),
            ("-06-16", "Eid al-Adha (approx)"),
            ("-06-17", "Eid al-Adha Day 2"),
            ("-07-07", "Islamic New Year (approx)"),
            ("-09-15", "Prophet's Birthday (approx)"),
            ("-12-02", "UAE National Day"),
        ];
        assert(v@.map_values(|p: (&'static str, &'static str)| (p.0@, p.1@)) =~= holiday_table(code@));
        v
    } else if same_text(code, "IN") {
        let v: Vec<(&'static str, &'static str)> = vec![
            ("-01-26", "Republic Day"),
            ("-03-14", "Holi"),
            ("-04-18", "Good Friday"),
            ("-05-01", "May Day"),
            ("-08-15", "Independence Day"),
            ("-10-02", "Gandhi Jayanti"),
            ("-10-20", "Diwali (approx)"),
            ("-12-25", "Christmas Day"),
        ];
        assert(v@.map_values(|p: (&'static str, &'static str)| (p.0@, p.1@)) =~= holiday_table(code@));
        v
    } else if same_text(code, "NG") {
        let v: Vec<(&'static str, &'static str)> = vec![
            ("-01-01", "New Year's Day"),
            ("-05-01", "Workers' Day"),
            ("-06-12", "Democracy Day"),
            ("-10-01", "Independence Day"),
            ("-12-25", "Christmas Day"),
            ("-12-26", "Boxing Day"),
        ];
        assert(v@.map_values(|p: (&'static str, &'static str)| (p.0@, p.1@)) =~= holiday_table(code@));
        v
    } else if same_text(code, "DE") {
        let v: Vec<(&'static str, &'static str)> = vec![
            ("-01-01", "Neujahr"),
            ("-04-18", "Karfreitag"),
            ("-04-21", "Ostermontag"),
            ("-05-01", "Tag der Arbeit"),
            ("-10-03", "Tag der Deutschen Einheit"),
            ("-12-25", "Weihnachten"),
            ("-12-26", "Zweiter Weihnachtstag"),
        ];
        assert(v@.map_values(|p: (&'static str, &'static str)| (p.0@, p.1@)) =~= holiday_table(code@));
        v
    } else if same_text(code, "SG") {
        let v: Vec<(&'static str, &'static str)> = vec![
            ("-01-01", "New Year's Day"),
            ("-01-29", "Chinese New Year"),
            ("-04-18", "Good Friday"),
            ("-05-01", "Labour Day"),
            ("-08-09", "National Day"),
            ("-10-20", "Deepavali (approx)"),
            ("-12-25", "Christmas Day"),
        ];
        assert(v@.map_values(|p: (&'static str, &'static str)| (p.0@, p.1@)) =~= holiday_table(code@));
        v
    } else if same_text(code, "UG") {
        let v: Vec<(&'static str, &'static str)> = vec![
            ("-01-01", "New Year's Day"),
            ("-01-26", "NRM Liberation Day"),
            ("-03-08", "International Women's Day"),
            ("-05-01", "Labour Day"),
            ("-06-03", "Martyrs' Day"),
            ("-06-09", "National Heroes Day"),
            ("-10-09", "Independence Day"),
            ("-12-25", "Christmas Day"),
        ];
        assert(v@.map_values(|p: (&'static str, &'static str)| (p.0@, p.1@)) =~= holiday_table(code@));
        v
    } else if same_text(code, "TZ") {
        let v: Vec<(&'static str, &'static str)> = vec![
            ("-01-01", "New Year's Day"),
            ("-01-12", "Zanzibar Revolution Day"),
            ("-04-07", "Karume Day"),
            ("-04-26", "Union Day"),
            ("-05-01", "Workers' Day"),
            ("-07-07", "Saba Saba"),
            ("-08-08", "Nane Nane (Farmers' Day)"),
            ("-12-09", "Independence Day"),
            ("-12-25", "Christmas Day"),
        ];
        assert(v@.map_values(|p: (&'static str, &'static str)| (p.0@, p.1@)) =~= holiday_table(code@));
        v
    } else if same_text(code, "ET") {
        let v: Vec<(&'static str, &'static str)> = vec![
            ("-01-07", "Genna (Christmas)"),
            ("-01-19", "Timkat (Epiphany)"),
            ("-03-02", "Battle of Adwa"),
            ("-05-01", "Labour Day"),
            ("-05-05", "Patriots' Victory Day"),
            ("-05-28", "Derg Downfall Day"),
            ("-09-11", "Enkutatash (New Year)"),
            ("-09-27", "Meskel"),
        ];
        assert(v@.map_values(|p: (&'static str, &'static str)| (p.0@, p.1@)) =~= holiday_table(code@));
        v
    } else if same_text(code, "RW") {
        let v: Vec<(&'static str, &'static str)> = vec![
            ("-01-01", "New Year's Day"),
            ("-02-01", "National Heroes Day"),
            ("-04-07", "Genocide Memorial Day"),
            ("-05-01", "Labour Day"),
            ("-07-01", "Independence Day"),
            ("-07-04", "Liberation Day"),
            ("-08-15", "Assumption Day"),
            ("-12-25", "Christmas Day"),
        ];
        assert(v@.map_values(|p: (&'static str, &'static str)| (p.0@, p.1@)) =~= holiday_table(code@));
        v
    } else if same_text(code, "ZA") {
        let v: Vec<(&'static str, &'static str)> = vec![
            ("-01-01", "New Year's Day"),
            ("-03-21", "Human Rights Day"),
            ("-04-27", "Freedom Day"),
            ("-05-01", "Workers' Day"),
            ("-06-16", "Youth Day"),
            ("-08-09", "National Women's Day"),
            ("-09-24", "Heritage Day"),
            ("-12-16", "Day of Reconciliation"),
            ("-12-25", "Christmas Day"),
        ];
        assert(v@.map_values(|p: (&'static str, &'static str)| (p.0@, p.1@)) =~= holiday_table(code@));
        v
    } else if same_text(code, "EG") {
        let v: Vec<(&'static str, &'static str)> = vec![
            ("-01-07", "Coptic Christmas"),
            ("-01-25", "Revolution Day"),
            ("-04-25", "Sinai Liberation Day"),
            ("-05-01", "Labour Day"),
            ("-07-23", "Revolution Day (1952)"),
            ("-10-06", "Armed Forces Day"),
        ];
        assert(v@.map_values(|p: (&'static str, &'static str)| (p.0@, p.1@)) =~= holiday_table(code@));
        v
    } else if same_text(code, "GH") {
        let v: Vec<(&'static str, &'static str)> = vec![
            ("-01-01", "New Year's Day"),
            ("-03-06", "Independence Day"),
            ("-05-01", "May Day"),
            ("-05-25", "Africa Day"),
            ("-07-01", "Republic Day"),
            ("-09-21", "Kwame Nkrumah Memorial Day"),
            ("-12-25", "Christmas Day"),
        ];
        assert(v@.map_values(|p: (&'static str, &'static str)| (p.0@, p.1@)) =~= holiday_table(code@));
        v
    } else if same_text(code, "FR") {
        let v: Vec<(&'static str, &'static str)> = vec![
            ("-01-01", "Jour de l'An"),
            ("-05-01", "Fête du Travail"),
            ("-05-08", "Victoire 1945"),
            ("-07-14", "Fête Nationale"),
            ("-08-15", "Assomption"),
            ("-11-01", "Toussaint"),
            ("-11-11", "Armistice"),
            ("-12-25", "Noël"),
        ];
        assert(v@.map_values(|p: (&'static str, &'static str)| (p.0@, p.1@)) =~= holiday_table(code@));
        v
    } else if same_text(code, "JP") {
        let v: Vec<(&'static str, &'static str)> = vec![
            ("-01-01", "元日 (New Year)"),
            ("-02-11", "建国記念の日 (Foundation Day)"),
            ("-02-23", "天皇誕生日 (Emperor's Birthday)"),
            ("-04-29", "昭和の日 (Showa Day)"),
            ("-05-03", "憲法記念日 (Constitution Day)"),
            ("-05-05", "こどもの日 (Children's Day)"),
            ("-08-11", "山の日 (Mountain Day)"),
            ("-11-03", "文化の日 (Culture Day)"),
            ("-11-23", "勤労感謝の日 (Labour Day)"),
        ];
        assert(v@.map_values(|p: (&'static str, &'static str)| (p.0@, p.1@)) =~= holiday_table(code@));
        v
    } else if same_text(code, "CN") {
        let v: Vec<(&'static str, &'static str)> = vec![
            ("-01-01", "元旦 (New Year)"),
            ("-01-29", "春节 (Spring Festival)"),
            ("-01-30", "春节 Day 2"),
            ("-01-31", "春节 Day 3"),
            ("-04-04", "清明节 (Qingming)"),
            ("-05-01", "劳动节 (Labour Day)"),
            ("-06-01", "端午节 (Dragon Boat)"),
            ("-10-01", "国庆节 (National Day)"),
            ("-10-02", "国庆节 Day 2"),
            ("-10-03", "国庆节 Day 3"),
        ];
        assert(v@.map_values(|p: (&'static str, &'static str)| (p.0@, p.1@)) =~= holiday_table(code@));
        v
    } else if same_text(code, "BR") {
        let v: Vec<(&'static str, &'static str)> = vec![
            ("-01-01", "Ano Novo"),
            ("-02-17", "Carnaval"),
            ("-04-21", "Tiradentes"),
            ("-05-01", "Dia do Trabalho"),
            ("-09-07", "Independência"),
            ("-10-12", "Nossa Senhora Aparecida"),
            ("-11-02", "Finados"),
            ("-11-15", "Proclamação da República"),
            ("-12-25", "Natal"),
        ];
        assert(v@.map_values(|p: (&'static str, &'static str)| (p.0@, p.1@)) =~= holiday_table(code@));
        v
    } else if same_text(code, "AU") {
        let v: Vec<(&'static str, &'static str)> = vec![
            ("-01-01", "New Year's Day"),
            ("-01-26", "Australia Day"),
            ("-04-18", "Good Friday"),
            ("-04-21", "Easter Monday"),
            ("-04-25", "ANZAC Day"),
            ("-06-09", "Queen's Birthday"),
            ("-12-25", "Christmas Day"),
            ("-12-26", "Boxing Day"),
        ];
        assert(v@.map_values(|p: (&'static str, &'static str)| (p.0@, p.1@)) =~= holiday_table(code@));
        v
    } else if same_text(code, "CA") {
        let v: Vec<(&'static str, &'static str)> = vec![
            ("-01-01", "New Year's Day"),
            ("-02-17", "Family Day"),
            ("-04-18", "Good Friday"),
            ("-05-19", "Victoria Day"),
            ("-07-01", "Canada Day"),
            ("-09-01", "Labour Day"),
            ("-10-13", "Thanksgiving"),
            ("-12-25", "Christmas Day"),
        ];
        assert(v@.map_values(|p: (&'static str, &'static str)| (p.0@, p.1@)) =~= holiday_table(code@));
        v
    } else if same_text(code, "MX") {
        let v: Vec<(&'static str, &'static str)> = vec![
            ("-01-01", "Año Nuevo"),
            ("-02-03", "Día de la Constitución"),
            ("-03-17", "Natalicio de Benito Juárez"),
            ("-05-01", "Día del Trabajo"),
            ("-09-16", "Día de la Independencia"),
            ("-11-17", "Revolución Mexicana"),
            ("-12-25", "Navidad"),
        ];
        assert(v@.map_values(|p: (&'static str, &'static str)| (p.0@, p.1@)) =~= holiday_table(code@));
        v
    } else {
        let v: Vec<(&'static str, &'static str)> = vec![
            ("-01-01", "New Year's Day"),
            ("-05-01", "Labour Day"),
            ("-12-25", "Christmas Day"),
        ];
        assert(v@.map_values(|p: (&'static str, &'static str)| (p.0@, p.1@)) =~= holiday_table(code@));
        v
    }
}

/// The holidays of an upper-case country code, dated in `year`.
pub fn holidays_for_code(code: &str, year: u32) -> (r: Vec<Holiday>)
    ensures
        holiday_views(r@) == dated(year, holiday_table(code@)),
{
    let entries = holiday_entries(code);
    let ghost ev = entries@.map_values(|p: (&'static str, &'static str)| (p.0@, p.1@));
    let y = decimal_text(year);
    let mut r: Vec<Holiday> = Vec::new();
    let mut i: usize = 0;
    while i < entries.len()
        invariant
            i <= entries@.len(),
            ev == entries@.map_values(|p: (&'static str, &'static str)| (p.0@, p.1@)),
            ev == holiday_table(code@),
            y@ == decimal(year as nat),
            r@.len() == i,
            forall|k: int| 0 <= k < i ==> (#[trigger] r@[k]).date@ == decimal(year as nat) + ev[k].0 && r@[k].name@ == ev[k].1,
        decreases entries@.len() - i,
    {
        let (suffix, name) = entries[i];
        assert(ev[i as int] == (suffix@, name@));
        r.push(Holiday { date: join_text(y.as_str(), suffix), name: name.to_owned() });
        i = i + 1;
    }
    assert(holiday_views(r@) =~= dated(year, holiday_table(code@)));
    r
}

/// The holidays of a country (its code in any case), dated in `year`.
pub fn get_holidays(country: &str, year: u32) -> (r: Vec<Holiday>)
    ensures
        holiday_views(r@) == dated(year, holiday_table(country_code(country@))),
{
    let code = uppercase_text(country);
    holidays_for_code(code.as_str(), year)
}

impl SchedulingServer {
    /// The public holidays of a country in a year: the given one, else
    /// `current_year` (the calendar year at the time of the request).
    pub fn holidays_list(&self, input: &HolidaysInput, current_year: u32) -> (r: HolidayList)
        ensures
            r.year == match input.year {
                Some(y) => y,
                None => current_year,
            },
            holiday_views(r.holidays@) == dated(r.year, holiday_table(country_code(input.country@))),
    {
        let year = match input.year {
            Some(y) => y,
            None => current_year,
        };
        let holidays = get_holidays(input.country.as_str(), year);
        HolidayList { year: year, holidays: holidays }
    }
}

/// Upper-casing an upper-cased ASCII code changes nothing.
pub proof fn lemma_ascii_upper_idempotent(s: Seq<char>)
    requires
        vstd::utf8::is_ascii_chars(s),
    ensures
        vstd::utf8::is_ascii_chars(ascii_upper(s)),
        ascii_upper(ascii_upper(s)) == ascii_upper(s),
{
    assert(ascii_upper(ascii_upper(s)) =~= ascii_upper(s));
}

/// A country code gives the same holidays in any letter case: ASCII codes
/// that agree once upper-cased give the same list, and a code gives the same
/// list as its upper case.
pub proof fn law_holidays_ignore_case(c1: Seq<char>, c2: Seq<char>, year: u32)
    requires
        vstd::utf8::is_ascii_chars(c1),
        vstd::utf8::is_ascii_chars(c2),
        ascii_upper(c1) == ascii_upper(c2),
    ensures
        dated(year, holiday_table(country_code(c1))) == dated(year, holiday_table(country_code(c2))),
        dated(year, holiday_table(country_code(c1))) == dated(year, holiday_table(country_code(ascii_upper(c1)))),
{
    lemma_ascii_upper_idempotent(c1);
}

/// `UK` and `GB` name the same holidays, and so do `AE` and `SA`.
pub proof fn law_holiday_aliases()
    ensures
        holiday_table("UK"@) == holiday_table("GB"@),
        holiday_table("SA"@) == holiday_table("AE"@),
{
    reveal_strlit("KE");
    reveal_strlit("US");
    reveal_strlit("GB");
    reveal_strlit("UK");
    reveal_strlit("AE");
    reveal_strlit("SA");
    assert("UK"@ != "KE"@ && "UK"@ != "US"@ && "GB"@ != "KE"@ && "GB"@ != "US"@) by {
        assert("UK"@[0] != "KE"@[0] && "UK"@[1] != "US"@[1]);
        assert("GB"@[0] != "KE"@[0] && "GB"@[0] != "US"@[0]);
    }
    assert("SA"@ != "KE"@ && "SA"@ != "US"@ && "SA"@ != "GB"@ && "SA"@ != "UK"@) by {
        assert("SA"@[0] != "KE"@[0] && "SA"@[1] != "US"@[1] && "SA"@[0] != "GB"@[0] && "SA"@[0] != "UK"@[0]);
    }
    assert("AE"@ != "KE"@ && "AE"@ != "US"@ && "AE"@ != "GB"@ && "AE"@ != "UK"@) by {
        assert("AE"@[0] != "KE"@[0] && "AE"@[0] != "US"@[0] && "AE"@[0] != "GB"@[0] && "AE"@[0] != "UK"@[0]);
    }
}

/// The year changes only the year in front of each date: the lists of a
/// country in two years have the same length, the same names in the same
/// order, and dates that agree after the year.
pub proof fn law_year_changes_only_the_year(country: Seq<char>, y1: u32, y2: u32)
    ensures
        ({
            let a = dated(y1, holiday_table(country_code(country)));
            let b = dated(y2, holiday_table(country_code(country)));
            &&& a.len() == b.len()
            &&& forall|i: int|
                0 <= i < a.len() ==> {
                    let md = (#[trigger] a[i]).0.skip(decimal(y1 as nat).len() as int);
                    &&& a[i].1 == b[i].1
                    &&& a[i].0 == decimal(y1 as nat) + md
                    &&& b[i].0 == decimal(y2 as nat) + md
                }
        }),
{
    let t = holiday_table(country_code(country));
    let a = dated(y1, t);
    let b = dated(y2, t);
    assert forall|i: int| 0 <= i < a.len() implies {
        let md = (#[trigger] a[i]).0.skip(decimal(y1 as nat).len() as int);
        &&& a[i].1 == b[i].1
        &&& a[i].0 == decimal(y1 as nat) + md
        &&& b[i].0 == decimal(y2 as nat) + md
    } by {
        let md = a[i].0.skip(decimal(y1 as nat).len() as int);
        assert(md =~= t[i].0);
    }
}

/// The holidays of Kenya, in the order listed: 10 dates of the year.
pub proof fn law_holidays_of_kenya()
    ensures
        holiday_table("KE"@) == seq![
            ("-01-01"@, "New Year's Day"@),
            ("-04-18"@, "Good Friday"@),
            ("-04-21"@, "Easter Monday"@),
            ("-05-01"@, "Labour Day"@),
            ("-06-01"@, "Madaraka Day"@),
            ("-10-10"@, "Huduma Day"@),
            ("-10-20"@, "Mashujaa Day"@),
            ("-12-12"@, "Jamhuri Day"@),
            ("-12-25"@, "Christmas Day"@),
            ("-12-26"@, "Boxing Day"@),
        ],
{
    reveal_strlit("KE");
}

/// The holidays of the United States, in the order listed: 9 dates of the year.
pub proof fn law_holidays_of_the_united_states()
    ensures
        holiday_table("US"@) == seq![
            ("-01-01"@, "New Year's Day"@),
            ("-01-20"@, "MLK Day"@),
            ("-02-17"@, "Presidents' Day"@),
            ("-05-26"@, "Memorial Day"@),
            ("-06-19"@, "Juneteenth"@),
            ("-07-04"@, "Independence Day"@),
            ("-09-01"@, "Labor Day"@),
            ("-11-27"@, "Thanksgiving"@),
            ("-12-25"@, "Christmas Day"@),
        ],
{
    reveal_strlit("KE");
    reveal_strlit("US");
    assert("KE"@[0] != "US"@[0]);
}

/// The holidays of the United Kingdom (`GB` or `UK`), in the order listed: 8 dates of the year.
pub proof fn law_holidays_of_the_united_kingdom()
    ensures
        holiday_table("GB"@) == seq![
            ("-01-01"@, "New Year's Day"@),
            ("-04-18"@, "Good Friday"@),
            ("-04-21"@, "Easter Monday"@),
            ("-05-05"@, "Early May Bank Holiday"@),
            ("-05-26"@, "Spring Bank Holiday"@),
            ("-08-25"@, "Summer Bank Holiday"@),
            ("-12-25"@, "Christmas Day"@),
            ("-12-26"@, "Boxing Day"@),
        ],
        holiday_table("UK"@) == seq![
            ("-01-01"@, "New Year's Day"@),
            ("-04-18"@, "Good Friday"@),
            ("-04-21"@, "Easter Monday"@),
            ("-05-05"@, "Early May Bank Holiday"@),
            ("-05-26"@, "Spring Bank Holiday"@),
            ("-08-25"@, "Summer Bank Holiday"@),
            ("-12-25"@, "Christmas Day"@),
            ("-12-26"@, "Boxing Day"@),
        ],
{
    reveal_strlit("KE");
    reveal_strlit("US");
    reveal_strlit("GB");
    reveal_strlit("UK");
    assert("KE"@[0] != "GB"@[0]);
    assert("US"@[0] != "GB"@[0]);
    assert("KE"@[0] != "UK"@[0]);
    assert("US"@[1] != "UK"@[1]);
}

/// The holidays of the Emirates and Saudi Arabia (`AE` or `SA`), in the order listed: 9 dates of the year.
pub proof fn law_holidays_of_the_emirates_and_saudi_arabia()
    ensures
        holiday_table("AE"@) == seq![
            ("-01-01"@, "New Year's Day"@),
            ("-03-10"@, "Eid al-Fitr (approx)"@),
            ("-03-11"@, "Eid al-Fitr Day 2"@),
            ("-03-12"@, "Eid al-Fitr Day 3"@),
            ("-06-16"@, "Eid al-Adha (approx)"@),
            ("-06-17"@, "Eid al-Adha Day 2"@),
            ("-07-07"@, "Islamic New Year (approx)"@),
            ("-09-15"@, "Prophet's Birthday (approx)"@),
            ("-12-02"@, "UAE National Day"@),
        ],
        holiday_table("SA"@) == seq![
            ("-01-01"@, "New Year's Day"@),
            ("-03-10"@, "Eid al-Fitr (approx)"@),
            ("-03-11"@, "Eid al-Fitr Day 2"@),
            ("-03-12"@, "Eid al-Fitr Day 3"@),
            ("-06-16"@, "Eid al-Adha (approx)"@),
            ("-06-17"@, "Eid al-Adha Day 2"@),
            ("-07-07"@, "Islamic New Year (approx)"@),
            ("-09-15"@, "Prophet's Birthday (approx)"@),
            ("-12-02"@, "UAE National Day"@),
        ],
{
    reveal_strlit("KE");
    reveal_strlit("US");
    reveal_strlit("GB");
    reveal_strlit("UK");
    reveal_strlit("AE");
    reveal_strlit("SA");
    assert("KE"@[0] != "AE"@[0]);
    assert("US"@[0] != "AE"@[0]);
    assert("GB"@[0] != "AE"@[0]);
    assert("UK"@[0] != "AE"@[0]);
    assert("KE"@[0] != "SA"@[0]);
    assert("US"@[0] != "SA"@[0]);
    assert("GB"@[0] != "SA"@[0]);
    assert("UK"@[0] != "SA"@[0]);
}

/// The holidays of India, in the order listed: 8 dates of the year.
pub proof fn law_holidays_of_india()
    ensures
        holiday_table("IN"@) == seq![
            ("-01-26"@, "Republic Day"@),
            ("-03-14"@, "Holi"@),
            ("-04-18"@, "Good Friday"@),
            ("-05-01"@, "May Day"@),
            ("-08-15"@, "Independence Day"@),
            ("-10-02"@, "Gandhi Jayanti"@),
            ("-10-20"@, "Diwali (approx)"@),
            ("-12-25"@, "Christmas Day"@),
        ],
{
    reveal_strlit("KE");
    reveal_strlit("US");
    reveal_strlit("GB");
    reveal_strlit("UK");
    reveal_strlit("AE");
    reveal_strlit("SA");
    reveal_strlit("IN");
    assert("KE"@[0] != "IN"@[0]);
    assert("US"@[0] != "IN"@[0]);
    assert("GB"@[0] != "IN"@[0]);
    assert("UK"@[0] != "IN"@[0]);
    assert("AE"@[0] != "IN"@[0]);
    assert("SA"@[0] != "IN"@[0]);
}

/// The holidays of Nigeria, in the order listed: 6 dates of the year.
pub proof fn law_holidays_of_nigeria()
    ensures
        holiday_table("NG"@) == seq![
            ("-01-01"@, "New Year's Day"@),
            ("-05-01"@, "Workers' Day"@),
            ("-06-12"@, "Democracy Day"@),
            ("-10-01"@, "Independence Day"@),
            ("-12-25"@, "Christmas Day"@),
            ("-12-26"@, "Boxing Day"@),
        ],
{
    reveal_strlit("KE");
    reveal_strlit("US");
    reveal_strlit("GB");
    reveal_strlit("UK");
    reveal_strlit("AE");
    reveal_strlit("SA");
    reveal_strlit("IN");
    reveal_strlit("NG");
    assert("KE"@[0] != "NG"@[0]);
    assert("US"@[0] != "NG"@[0]);
    assert("GB"@[0] != "NG"@[0]);
    assert("UK"@[0] != "NG"@[0]);
    assert("AE"@[0] != "NG"@[0]);
    assert("SA"@[0] != "NG"@[0]);
    assert("IN"@[0] != "NG"@[0]);
}

/// The holidays of Germany, in the order listed: 7 dates of the year.
pub proof fn law_holidays_of_germany()
    ensures
        holiday_table("DE"@) == seq![
            ("-01-01"@, "Neujahr"@),
            ("-04-18"@, "Karfreitag"@),
            ("-04-21"@, "Ostermontag"@),
            ("-05-01"@, "Tag der Arbeit"@),
            ("-10-03"@, "Tag der Deutschen Einheit"@),
            ("-12-25"@, "Weihnachten"@),
            ("-12-26"@, "Zweiter Weihnachtstag"@),
        ],
{
    reveal_strlit("KE");
    reveal_strlit("US");
    reveal_strlit("GB");
    reveal_strlit("UK");
    reveal_strlit("AE");
    reveal_strlit("SA");
    reveal_strlit("IN");
    reveal_strlit("NG");
    reveal_strlit("DE");
    assert("KE"@[0] != "DE"@[0]);
    assert("US"@[0] != "DE"@[0]);
    assert("GB"@[0] != "DE"@[0]);
    assert("UK"@[0] != "DE"@[0]);
    assert("AE"@[0] != "DE"@[0]);
    assert("SA"@[0] != "DE"@[0]);
    assert("IN"@[0] != "DE"@[0]);
    assert("NG"@[0] != "DE"@[0]);
}

/// The holidays of Singapore, in the order listed: 7 dates of the year.
pub proof fn law_holidays_of_singapore()
    ensures
        holiday_table("SG"@) == seq![
            ("-01-01"@, "New Year's Day"@),
            ("-01-29"@, "Chinese New Year"@),
            ("-04-18"@, "Good Friday"@),
            ("-05-01"@, "Labour Day"@),
            ("-08-09"@, "National Day"@),
            ("-10-20"@, "Deepavali (approx)"@),
            ("-12-25"@, "Christmas Day"@),
        ],
{
    reveal_strlit("KE");
    reveal_strlit("US");
    reveal_strlit("GB");
    reveal_strlit("UK");
    reveal_strlit("AE");
    reveal_strlit("SA");
    reveal_strlit("IN");
    reveal_strlit("NG");
    reveal_strlit("DE");
    reveal_strlit("SG");
    assert("KE"@[0] != "SG"@[0]);
    assert("US"@[0] != "SG"@[0]);
    assert("GB"@[0] != "SG"@[0]);
    assert("UK"@[0] != "SG"@[0]);
    assert("AE"@[0] != "SG"@[0]);
    assert("SA"@[1] != "SG"@[1]);
    assert("IN"@[0] != "SG"@[0]);
    assert("NG"@[0] != "SG"@[0]);
    assert("DE"@[0] != "SG"@[0]);
}

/// The holidays of Uganda, in the order listed: 8 dates of the year.
pub proof fn law_holidays_of_uganda()
    ensures
        holiday_table("UG"@) == seq![
            ("-01-01"@, "New Year's Day"@),
            ("-01-26"@, "NRM Liberation Day"@),
            ("-03-08"@, "International Women's Day"@),
            ("-05-01"@, "Labour Day"@),
            ("-06-03"@, "Martyrs' Day"@),
            ("-06-09"@, "National Heroes Day"@),
            ("-10-09"@, "Independence Day"@),
            ("-12-25"@, "Christmas Day"@),
        ],
{
    reveal_strlit("KE");
    reveal_strlit("US");
    reveal_strlit("GB");
    reveal_strlit("UK");
    reveal_strlit("AE");
    reveal_strlit("SA");
    reveal_strlit("IN");
    reveal_strlit("NG");
    reveal_strlit("DE");
    reveal_strlit("SG");
    reveal_strlit("UG");
    assert("KE"@[0] != "UG"@[0]);
    assert("US"@[1] != "UG"@[1]);
    assert("GB"@[0] != "UG"@[0]);
    assert("UK"@[1] != "UG"@[1]);
    assert("AE"@[0] != "UG"@[0]);
    assert("SA"@[0] != "UG"@[0]);
    assert("IN"@[0] != "UG"@[0]);
    assert("NG"@[0] != "UG"@[0]);
    assert("DE"@[0] != "UG"@[0]);
    assert("SG"@[0] != "UG"@[0]);
}

/// The holidays of Tanzania, in the order listed: 9 dates of the year.
pub proof fn law_holidays_of_tanzania()
    ensures
        holiday_table("TZ"@) == seq![
            ("-01-01"@, "New Year's Day"@),
            ("-01-12"@, "Zanzibar Revolution Day"@),
            ("-04-07"@, "Karume Day"@),
            ("-04-26"@, "Union Day"@),
            ("-05-01"@, "Workers' Day"@),
            ("-07-07"@, "Saba Saba"@),
            ("-08-08"@, "Nane Nane (Farmers' Day)"@),
            ("-12-09"@, "Independence Day"@),
            ("-12-25"@, "Christmas Day"@),
        ],
{
    reveal_strlit("KE");
    reveal_strlit("US");
    reveal_strlit("GB");
    reveal_strlit("UK");
    reveal_strlit("AE");
    reveal_strlit("SA");
    reveal_strlit("IN");
    reveal_strlit("NG");
    reveal_strlit("DE");
    reveal_strlit("SG");
    reveal_strlit("UG");
    reveal_strlit("TZ");
    assert("KE"@[0] != "TZ"@[0]);
    assert("US"@[0] != "TZ"@[0]);
    assert("GB"@[0] != "TZ"@[0]);
    assert("UK"@[0] != "TZ"@[0]);
    assert("AE"@[0] != "TZ"@[0]);
    assert("SA"@[0] != "TZ"@[0]);
    assert("IN"@[0] != "TZ"@[0]);
    assert("NG"@[0] != "TZ"@[0]);
    assert("DE"@[0] != "TZ"@[0]);
    assert("SG"@[0] != "TZ"@[0]);
    assert("UG"@[0] != "TZ"@[0]);
}

/// The holidays of Ethiopia, in the order listed: 8 dates of the year.
pub proof fn law_holidays_of_ethiopia()
    ensures
        holiday_table("ET"@) == seq![
            ("-01-07"@, "Genna (Christmas)"@),
            ("-01-19"@, "Timkat (Epiphany)"@),
            ("-03-02"@, "Battle of Adwa"@),
            ("-05-01"@, "Labour Day"@),
            ("-05-05"@, "Patriots' Victory Day"@),
            ("-05-28"@, "Derg Downfall Day"@),
            ("-09-11"@, "Enkutatash (New Year)"@),
            ("-09-27"@, "Meskel"@),
        ],
{
    reveal_strlit("KE");
    reveal_strlit("US");
    reveal_strlit("GB");
    reveal_strlit("UK");
    reveal_strlit("AE");
    reveal_strlit("SA");
    reveal_strlit("IN");
    reveal_strlit("NG");
    reveal_strlit("DE");
    reveal_strlit("SG");
    reveal_strlit("UG");
    reveal_strlit("TZ");
    reveal_strlit("ET");
    assert("KE"@[0] != "ET"@[0]);
    assert("US"@[0] != "ET"@[0]);
    assert("GB"@[0] != "ET"@[0]);
    assert("UK"@[0] != "ET"@[0]);
    assert("AE"@[0] != "ET"@[0]);
    assert("SA"@[0] != "ET"@[0]);
    assert("IN"@[0] != "ET"@[0]);
    assert("NG"@[0] != "ET"@[0]);
    assert("DE"@[0] != "ET"@[0]);
    assert("SG"@[0] != "ET"@[0]);
    assert("UG"@[0] != "ET"@[0]);
    assert("TZ"@[0] != "ET"@[0]);
}

/// The holidays of Rwanda, in the order listed: 8 dates of the year.
pub proof fn law_holidays_of_rwanda()
    ensures
        holiday_table("RW"@) == seq![
            ("-01-01"@, "New Year's Day"@),
            ("-02-01"@, "National Heroes Day"@),
            ("-04-07"@, "Genocide Memorial Day"@),
            ("-05-01"@, "Labour Day"@),
            ("-07-01"@, "Independence Day"@),
            ("-07-04"@, "Liberation Day"@),
            ("-08-15"@, "Assumption Day"@),
            ("-12-25"@, "Christmas Day"@),
        ],
{
    reveal_strlit("KE");
    reveal_strlit("US");
    reveal_strlit("GB");
    reveal_strlit("UK");
    reveal_strlit("AE");
    reveal_strlit("SA");
    reveal_strlit("IN");
    reveal_strlit("NG");
    reveal_strlit("DE");
    reveal_strlit("SG");
    reveal_strlit("UG");
    reveal_strlit("TZ");
    reveal_strlit("ET");
    reveal_strlit("RW");
    assert("KE"@[0] != "RW"@[0]);
    assert("US"@[0] != "RW"@[0]);
    assert("GB"@[0] != "RW"@[0]);
    assert("UK"@[0] != "RW"@[0]);
    assert("AE"@[0] != "RW"@[0]);
    assert("SA"@[0] != "RW"@[0]);
    assert("IN"@[0] != "RW"@[0]);
    assert("NG"@[0] != "RW"@[0]);
    assert("DE"@[0] != "RW"@[0]);
    assert("SG"@[0] != "RW"@[0]);
    assert("UG"@[0] != "RW"@[0]);
    assert("TZ"@[0] != "RW"@[0]);
    assert("ET"@[0] != "RW"@[0]);
}

/// The holidays of South Africa, in the order listed: 9 dates of the year.
pub proof fn law_holidays_of_south_africa()
    ensures
        holiday_table("ZA"@) == seq![
            ("-01-01"@, "New Year's Day"@),
            ("-03-21"@, "Human Rights Day"@),
            ("-04-27"@, "Freedom Day"@),
            ("-05-01"@, "Workers' Day"@),
            ("-06-16"@, "Youth Day"@),
            ("-08-09"@, "National Women's Day"@),
            ("-09-24"@, "Heritage Day"@),
            ("-12-16"@, "Day of Reconciliation"@),
            ("-12-25"@, "Christmas Day"@),
        ],
{
    reveal_strlit("KE");
    reveal_strlit("US");
    reveal_strlit("GB");
    reveal_strlit("UK");
    reveal_strlit("AE");
    reveal_strlit("SA");
    reveal_strlit("IN");
    reveal_strlit("NG");
    reveal_strlit("DE");
    reveal_strlit("SG");
    reveal_strlit("UG");
    reveal_strlit("TZ");
    reveal_strlit("ET");
    reveal_strlit("RW");
    reveal_strlit("ZA");
    assert("KE"@[0] != "ZA"@[0]);
    assert("US"@[0] != "ZA"@[0]);
    assert("GB"@[0] != "ZA"@[0]);
    assert("UK"@[0] != "ZA"@[0]);
    assert("AE"@[0] != "ZA"@[0]);
    assert("SA"@[0] != "ZA"@[0]);
    assert("IN"@[0] != "ZA"@[0]);
    assert("NG"@[0] != "ZA"@[0]);
    assert("DE"@[0] != "ZA"@[0]);
    assert("SG"@[0] != "ZA"@[0]);
    assert("UG"@[0] != "ZA"@[0]);
    assert("TZ"@[0] != "ZA"@[0]);
    assert("ET"@[0] != "ZA"@[0]);
    assert("RW"@[0] != "ZA"@[0]);
}

/// The holidays of Egypt, in the order listed: 6 dates of the year.
pub proof fn law_holidays_of_egypt()
    ensures
        holiday_table("EG"@) == seq![
            ("-01-07"@, "Coptic Christmas"@),
            ("-01-25"@, "Revolution Day"@),
            ("-04-25"@, "Sinai Liberation Day"@),
            ("-05-01"@, "Labour Day"@),
            ("-07-23"@, "Revolution Day (1952)"@),
            ("-10-06"@, "Armed Forces Day"@),
        ],
{
    reveal_strlit("KE");
    reveal_strlit("US");
    reveal_strlit("GB");
    reveal_strlit("UK");
    reveal_strlit("AE");
    reveal_strlit("SA");
    reveal_strlit("IN");
    reveal_strlit("NG");
    reveal_strlit("DE");
    reveal_strlit("SG");
    reveal_strlit("UG");
    reveal_strlit("TZ");
    reveal_strlit("ET");
    reveal_strlit("RW");
    reveal_strlit("ZA");
    reveal_strlit("EG");
    assert("KE"@[0] != "EG"@[0]);
    assert("US"@[0] != "EG"@[0]);
    assert("GB"@[0] != "EG"@[0]);
    assert("UK"@[0] != "EG"@[0]);
    assert("AE"@[0] != "EG"@[0]);
    assert("SA"@[0] != "EG"@[0]);
    assert("IN"@[0] != "EG"@[0]);
    assert("NG"@[0] != "EG"@[0]);
    assert("DE"@[0] != "EG"@[0]);
    assert("SG"@[0] != "EG"@[0]);
    assert("UG"@[0] != "EG"@[0]);
    assert("TZ"@[0] != "EG"@[0]);
    assert("ET"@[1] != "EG"@[1]);
    assert("RW"@[0] != "EG"@[0]);
    assert("ZA"@[0] != "EG"@[0]);
}

/// The holidays of Ghana, in the order listed: 7 dates of the year.
pub proof fn law_holidays_of_ghana()
    ensures
        holiday_table("GH"@) == seq![
            ("-01-01"@, "New Year's Day"@),
            ("-03-06"@, "Independence Day"@),
            ("-05-01"@, "May Day"@),
            ("-05-25"@, "Africa Day"@),
            ("-07-01"@, "Republic Day"@),
            ("-09-21"@, "Kwame Nkrumah Memorial Day"@),
            ("-12-25"@, "Christmas Day"@),
        ],
{
    reveal_strlit("KE");
    reveal_strlit("US");
    reveal_strlit("GB");
    reveal_strlit("UK");
    reveal_strlit("AE");
    reveal_strlit("SA");
    reveal_strlit("IN");
    reveal_strlit("NG");
    reveal_strlit("DE");
    reveal_strlit("SG");
    reveal_strlit("UG");
    reveal_strlit("TZ");
    reveal_strlit("ET");
    reveal_strlit("RW");
    reveal_strlit("ZA");
    reveal_strlit("EG");
    reveal_strlit("GH");
    assert("KE"@[0] != "GH"@[0]);
    assert("US"@[0] != "GH"@[0]);
    assert("GB"@[1] != "GH"@[1]);
    assert("UK"@[0] != "GH"@[0]);
    assert("AE"@[0] != "GH"@[0]);
    assert("SA"@[0] != "GH"@[0]);
    assert("IN"@[0] != "GH"@[0]);
    assert("NG"@[0] != "GH"@[0]);
    assert("DE"@[0] != "GH"@[0]);
    assert("SG"@[0] != "GH"@[0]);
    assert("UG"@[0] != "GH"@[0]);
    assert("TZ"@[0] != "GH"@[0]);
    assert("ET"@[0] != "GH"@[0]);
    assert("RW"@[0] != "GH"@[0]);
    assert("ZA"@[0] != "GH"@[0]);
    assert("EG"@[0] != "GH"@[0]);
}

/// The holidays of France, in the order listed: 8 dates of the year.
pub proof fn law_holidays_of_france()
    ensures
        holiday_table("FR"@) == seq![
            ("-01-01"@, "Jour de l'An"@),
            ("-05-01"@, "Fête du Travail"@),
            ("-05-08"@, "Victoire 1945"@),
            ("-07-14"@, "Fête Nationale"@),
            ("-08-15"@, "Assomption"@),
            ("-11-01"@, "Toussaint"@),
            ("-11-11"@, "Armistice"@),
            ("-12-25"@, "Noël"@),
        ],
{
    reveal_strlit("KE");
    reveal_strlit("US");
    reveal_strlit("GB");
    reveal_strlit("UK");
    reveal_strlit("AE");
    reveal_strlit("SA");
    reveal_strlit("IN");
    reveal_strlit("NG");
    reveal_strlit("DE");
    reveal_strlit("SG");
    reveal_strlit("UG");
    reveal_strlit("TZ");
    reveal_strlit("ET");
    reveal_strlit("RW");
    reveal_strlit("ZA");
    reveal_strlit("EG");
    reveal_strlit("GH");
    reveal_strlit("FR");
    assert("KE"@[0] != "FR"@[0]);
    assert("US"@[0] != "FR"@[0]);
    assert("GB"@[0] != "FR"@[0]);
    assert("UK"@[0] != "FR"@[0]);
    assert("AE"@[0] != "FR"@[0]);
    assert("SA"@[0] != "FR"@[0]);
    assert("IN"@[0] != "FR"@[0]);
    assert("NG"@[0] != "FR"@[0]);
    assert("DE"@[0] != "FR"@[0]);
    assert("SG"@[0] != "FR"@[0]);
    assert("UG"@[0] != "FR"@[0]);
    assert("TZ"@[0] != "FR"@[0]);
    assert("ET"@[0] != "FR"@[0]);
    assert("RW"@[0] != "FR"@[0]);
    assert("ZA"@[0] != "FR"@[0]);
    assert("EG"@[0] != "FR"@[0]);
    assert("GH"@[0] != "FR"@[0]);
}

/// The holidays of Japan, in the order listed: 9 dates of the year.
pub proof fn law_holidays_of_japan()
    ensures
        holiday_table("JP"@) == seq![
            ("-01-01"@, "元日 (New Year)"@),
            ("-02-11"@, "建国記念の日 (Foundation Day)"@),
            ("-02-23"@, "天皇誕生日 (Emperor's Birthday)"@),
            ("-04-29"@, "昭和の日 (Showa Day)"@),
            ("-05-03"@, "憲法記念日 (Constitution Day)"@),
            ("-05-05"@, "こどもの日 (Children's Day)"@),
            ("-08-11"@, "山の日 (Mountain Day)"@),
            ("-11-03"@, "文化の日 (Culture Day)"@),
            ("-11-23"@, "勤労感謝の日 (Labour Day)"@),
        ],
{
    reveal_strlit("KE");
    reveal_strlit("US");
    reveal_strlit("GB");
    reveal_strlit("UK");
    reveal_strlit("AE");
    reveal_strlit("SA");
    reveal_strlit("IN");
    reveal_strlit("NG");
    reveal_strlit("DE");
    reveal_strlit("SG");
    reveal_strlit("UG");
    reveal_strlit("TZ");
    reveal_strlit("ET");
    reveal_strlit("RW");
    reveal_strlit("ZA");
    reveal_strlit("EG");
    reveal_strlit("GH");
    reveal_strlit("FR");
    reveal_strlit("JP");
    assert("KE"@[0] != "JP"@[0]);
    assert("US"@[0] != "JP"@[0]);
    assert("GB"@[0] != "JP"@[0]);
    assert("UK"@[0] != "JP"@[0]);
    assert("AE"@[0] != "JP"@[0]);
    assert("SA"@[0] != "JP"@[0]);
    assert("IN"@[0] != "JP"@[0]);
    assert("NG"@[0] != "JP"@[0]);
    assert("DE"@[0] != "JP"@[0]);
    assert("SG"@[0] != "JP"@[0]);
    assert("UG"@[0] != "JP"@[0]);
    assert("TZ"@[0] != "JP"@[0]);
    assert("ET"@[0] != "JP"@[0]);
    assert("RW"@[0] != "JP"@[0]);
    assert("ZA"@[0] != "JP"@[0]);
    assert("EG"@[0] != "JP"@[0]);
    assert("GH"@[0] != "JP"@[0]);
    assert("FR"@[0] != "JP"@[0]);
}

/// The holidays of China, in the order listed: 10 dates of the year.
pub proof fn law_holidays_of_china()
    ensures
        holiday_table("CN"@) == seq![
            ("-01-01"@, "元旦 (New Year)"@),
            ("-01-29"@, "春节 (Spring Festival)"@),
            ("-01-30"@, "春节 Day 2"@),
            ("-01-31"@, "春节 Day 3"@),
            ("-04-04"@, "清明节 (Qingming)"@),
            ("-05-01"@, "劳动节 (Labour Day)"@),
            ("-06-01"@, "端午节 (Dragon Boat)"@),
            ("-10-01"@, "国庆节 (National Day)"@),
            ("-10-02"@, "国庆节 Day 2"@),
            ("-10-03"@, "国庆节 Day 3"@),
        ],
{
    reveal_strlit("KE");
    reveal_strlit("US");
    reveal_strlit("GB");
    reveal_strlit("UK");
    reveal_strlit("AE");
    reveal_strlit("SA");
    reveal_strlit("IN");
    reveal_strlit("NG");
    reveal_strlit("DE");
    reveal_strlit("SG");
    reveal_strlit("UG");
    reveal_strlit("TZ");
    reveal_strlit("ET");
    reveal_strlit("RW");
    reveal_strlit("ZA");
    reveal_strlit("EG");
    reveal_strlit("GH");
    reveal_strlit("FR");
    reveal_strlit("JP");
    reveal_strlit("CN");
    assert("KE"@[0] != "CN"@[0]);
    assert("US"@[0] != "CN"@[0]);
    assert("GB"@[0] != "CN"@[0]);
    assert("UK"@[0] != "CN"@[0]);
    assert("AE"@[0] != "CN"@[0]);
    assert("SA"@[0] != "CN"@[0]);
    assert("IN"@[0] != "CN"@[0]);
    assert("NG"@[0] != "CN"@[0]);
    assert("DE"@[0] != "CN"@[0]);
    assert("SG"@[0] != "CN"@[0]);
    assert("UG"@[0] != "CN"@[0]);
    assert("TZ"@[0] != "CN"@[0]);
    assert("ET"@[0] != "CN"@[0]);
    assert("RW"@[0] != "CN"@[0]);
    assert("ZA"@[0] != "CN"@[0]);
    assert("EG"@[0] != "CN"@[0]);
    assert("GH"@[0] != "CN"@[0]);
    assert("FR"@[0] != "CN"@[0]);
    assert("JP"@[0] != "CN"@[0]);
}

/// The holidays of Brazil, in the order listed: 9 dates of the year.
pub proof fn law_holidays_of_brazil()
    ensures
        holiday_table("BR"@) == seq![
            ("-01-01"@, "Ano Novo"@),
            ("-02-17"@, "Carnaval"@),
            ("-04-21"@, "Tiradentes"@),
            ("-05-01"@, "Dia do Trabalho"@),
            ("-09-07"@, "Independência"@),
            ("-10-12"@, "Nossa Senhora Aparecida"@),
            ("-11-02"@, "Finados"@),
            ("-11-15"@, "Proclamação da República"@),
            ("-12-25"@, "Natal"@),
        ],
{
    reveal_strlit("KE");
    reveal_strlit("US");
    reveal_strlit("GB");
    reveal_strlit("UK");
    reveal_strlit("AE");
    reveal_strlit("SA");
    reveal_strlit("IN");
    reveal_strlit("NG");
    reveal_strlit("DE");
    reveal_strlit("SG");
    reveal_strlit("UG");
    reveal_strlit("TZ");
    reveal_strlit("ET");
    reveal_strlit("RW");
    reveal_strlit("ZA");
    reveal_strlit("EG");
    reveal_strlit("GH");
    reveal_strlit("FR");
    reveal_strlit("JP");
    reveal_strlit("CN");
    reveal_strlit("BR");
    assert("KE"@[0] != "BR"@[0]);
    assert("US"@[0] != "BR"@[0]);
    assert("GB"@[0] != "BR"@[0]);
    assert("UK"@[0] != "BR"@[0]);
    assert("AE"@[0] != "BR"@[0]);
    assert("SA"@[0] != "BR"@[0]);
    assert("IN"@[0] != "BR"@[0]);
    assert("NG"@[0] != "BR"@[0]);
    assert("DE"@[0] != "BR"@[0]);
    assert("SG"@[0] != "BR"@[0]);
    assert("UG"@[0] != "BR"@[0]);
    assert("TZ"@[0] != "BR"@[0]);
    assert("ET"@[0] != "BR"@[0]);
    assert("RW"@[0] != "BR"@[0]);
    assert("ZA"@[0] != "BR"@[0]);
    assert("EG"@[0] != "BR"@[0]);
    assert("GH"@[0] != "BR"@[0]);
    assert("FR"@[0] != "BR"@[0]);
    assert("JP"@[0] != "BR"@[0]);
    assert("CN"@[0] != "BR"@[0]);
}

/// The holidays of Australia, in the order listed: 8 dates of the year.
pub proof fn law_holidays_of_australia()
    ensures
        holiday_table("AU"@) == seq![
            ("-01-01"@, "New Year's Day"@),
            ("-01-26"@, "Australia Day"@),
            ("-04-18"@, "Good Friday"@),
            ("-04-21"@, "Easter Monday"@),
            ("-04-25"@, "ANZAC Day"@),
            ("-06-09"@, "Queen's Birthday"@),
            ("-12-25"@, "Christmas Day"@),
            ("-12-26"@, "Boxing Day"@),
        ],
{
    reveal_strlit("KE");
    reveal_strlit("US");
    reveal_strlit("GB");
    reveal_strlit("UK");
    reveal_strlit("AE");
    reveal_strlit("SA");
    reveal_strlit("IN");
    reveal_strlit("NG");
    reveal_strlit("DE");
    reveal_strlit("SG");
    reveal_strlit("UG");
    reveal_strlit("TZ");
    reveal_strlit("ET");
    reveal_strlit("RW");
    reveal_strlit("ZA");
    reveal_strlit("EG");
    reveal_strlit("GH");
    reveal_strlit("FR");
    reveal_strlit("JP");
    reveal_strlit("CN");
    reveal_strlit("BR");
    reveal_strlit("AU");
    assert("KE"@[0] != "AU"@[0]);
    assert("US"@[0] != "AU"@[0]);
    assert("GB"@[0] != "AU"@[0]);
    assert("UK"@[0] != "AU"@[0]);
    assert("AE"@[1] != "AU"@[1]);
    assert("SA"@[0] != "AU"@[0]);
    assert("IN"@[0] != "AU"@[0]);
    assert("NG"@[0] != "AU"@[0]);
    assert("DE"@[0] != "AU"@[0]);
    assert("SG"@[0] != "AU"@[0]);
    assert("UG"@[0] != "AU"@[0]);
    assert("TZ"@[0] != "AU"@[0]);
    assert("ET"@[0] != "AU"@[0]);
    assert("RW"@[0] != "AU"@[0]);
    assert("ZA"@[0] != "AU"@[0]);
    assert("EG"@[0] != "AU"@[0]);
    assert("GH"@[0] != "AU"@[0]);
    assert("FR"@[0] != "AU"@[0]);
    assert("JP"@[0] != "AU"@[0]);
    assert("CN"@[0] != "AU"@[0]);
    assert("BR"@[0] != "AU"@[0]);
}

/// The holidays of Canada, in the order listed: 8 dates of the year.
pub proof fn law_holidays_of_canada()
    ensures
        holiday_table("CA"@) == seq![
            ("-01-01"@, "New Year's Day"@),
            ("-02-17"@, "Family Day"@),
            ("-04-18"@, "Good Friday"@),
            ("-05-19"@, "Victoria Day"@),
            ("-07-01"@, "Canada Day"@),
            ("-09-01"@, "Labour Day"@),
            ("-10-13"@, "Thanksgiving"@),
            ("-12-25"@, "Christmas Day"@),
        ],
{
    reveal_strlit("KE");
    reveal_strlit("US");
    reveal_strlit("GB");
    reveal_strlit("UK");
    reveal_strlit("AE");
    reveal_strlit("SA");
    reveal_strlit("IN");
    reveal_strlit("NG");
    reveal_strlit("DE");
    reveal_strlit("SG");
    reveal_strlit("UG");
    reveal_strlit("TZ");
    reveal_strlit("ET");
    reveal_strlit("RW");
    reveal_strlit("ZA");
    reveal_strlit("EG");
    reveal_strlit("GH");
    reveal_strlit("FR");
    reveal_strlit("JP");
    reveal_strlit("CN");
    reveal_strlit("BR");
    reveal_strlit("AU");
    reveal_strlit("CA");
    assert("KE"@[0] != "CA"@[0]);
    assert("US"@[0] != "CA"@[0]);
    assert("GB"@[0] != "CA"@[0]);
    assert("UK"@[0] != "CA"@[0]);
    assert("AE"@[0] != "CA"@[0]);
    assert("SA"@[0] != "CA"@[0]);
    assert("IN"@[0] != "CA"@[0]);
    assert("NG"@[0] != "CA"@[0]);
    assert("DE"@[0] != "CA"@[0]);
    assert("SG"@[0] != "CA"@[0]);
    assert("UG"@[0] != "CA"@[0]);
    assert("TZ"@[0] != "CA"@[0]);
    assert("ET"@[0] != "CA"@[0]);
    assert("RW"@[0] != "CA"@[0]);
    assert("ZA"@[0] != "CA"@[0]);
    assert("EG"@[0] != "CA"@[0]);
    assert("GH"@[0] != "CA"@[0]);
    assert("FR"@[0] != "CA"@[0]);
    assert("JP"@[0] != "CA"@[0]);
    assert("CN"@[1] != "CA"@[1]);
    assert("BR"@[0] != "CA"@[0]);
    assert("AU"@[0] != "CA"@[0]);
}

/// The holidays of Mexico, in the order listed: 7 dates of the year.
pub proof fn law_holidays_of_mexico()
    ensures
        holiday_table("MX"@) == seq![
            ("-01-01"@, "Año Nuevo"@),
            ("-02-03"@, "Día de la Constitución"@),
            ("-03-17"@, "Natalicio de Benito Juárez"@),
            ("-05-01"@, "Día del Trabajo"@),
            ("-09-16"@, "Día de la Independencia"@),
            ("-11-17"@, "Revolución Mexicana"@),
            ("-12-25"@, "Navidad"@),
        ],
{
    reveal_strlit("KE");
    reveal_strlit("US");
    reveal_strlit("GB");
    reveal_strlit("UK");
    reveal_strlit("AE");
    reveal_strlit("SA");
    reveal_strlit("IN");
    reveal_strlit("NG");
    reveal_strlit("DE");
    reveal_strlit("SG");
    reveal_strlit("UG");
    reveal_strlit("TZ");
    reveal_strlit("ET");
    reveal_strlit("RW");
    reveal_strlit("ZA");
    reveal_strlit("EG");
    reveal_strlit("GH");
    reveal_strlit("FR");
    reveal_strlit("JP");
    reveal_strlit("CN");
    reveal_strlit("BR");
    reveal_strlit("AU");
    reveal_strlit("CA");
    reveal_strlit("MX");
    assert("KE"@[0] != "MX"@[0]);
    assert("US"@[0] != "MX"@[0]);
    assert("GB"@[0] != "MX"@[0]);
    assert("UK"@[0] != "MX"@[0]);
    assert("AE"@[0] != "MX"@[0]);
    assert("SA"@[0] != "MX"@[0]);
    assert("IN"@[0] != "MX"@[0]);
    assert("NG"@[0] != "MX"@[0]);
    assert("DE"@[0] != "MX"@[0]);
    assert("SG"@[0] != "MX"@[0]);
    assert("UG"@[0] != "MX"@[0]);
    assert("TZ"@[0] != "MX"@[0]);
    assert("ET"@[0] != "MX"@[0]);
    assert("RW"@[0] != "MX"@[0]);
    assert("ZA"@[0] != "MX"@[0]);
    assert("EG"@[0] != "MX"@[0]);
    assert("GH"@[0] != "MX"@[0]);
    assert("FR"@[0] != "MX"@[0]);
    assert("JP"@[0] != "MX"@[0]);
    assert("CN"@[0] != "MX"@[0]);
    assert("BR"@[0] != "MX"@[0]);
    assert("AU"@[0] != "MX"@[0]);
    assert("CA"@[0] != "MX"@[0]);
}

/// A code outside the table gets the short default list: New Year's Day,
/// Labour Day and Christmas Day.
pub proof fn law_holidays_elsewhere(code: Seq<char>)
    requires
        code != "KE"@,
        code != "US"@,
        code != "GB"@,
        code != "UK"@,
        code != "AE"@,
        code != "SA"@,
        code != "IN"@,
        code != "NG"@,
        code != "DE"@,
        code != "SG"@,
        code != "UG"@,
        code != "TZ"@,
        code != "ET"@,
        code != "RW"@,
        code != "ZA"@,
        code != "EG"@,
        code != "GH"@,
        code != "FR"@,
        code != "JP"@,
        code != "CN"@,
        code != "BR"@,
        code != "AU"@,
        code != "CA"@,
        code != "MX"@,
    ensures
        holiday_table(code) == seq![
            ("-01-01"@, "New Year's Day"@),
            ("-05-01"@, "Labour Day"@),
            ("-12-25"@, "Christmas Day"@),
        ],
{
}

/// The number that a text of decimal digits writes.
pub open spec fn digits_value(t: Seq<char>) -> int
    decreases t.len(),
{
    if t.len() == 0 {
        0
    } else {
        digits_value(t.drop_last()) * 10 + (t.last() as int - 48)
    }
}

/// The year is written in plain decimal: digits only, no leading zero (but
/// for zero itself), and they read back as the number.
pub proof fn law_years_are_written_in_decimal(n: nat)
    ensures
        decimal(n).len() >= 1,
        forall|i: int| 0 <= i < decimal(n).len() ==> '0' <= #[trigger] decimal(n)[i] <= '9',
        n > 0 ==> decimal(n)[0] != '0',
        digits_value(decimal(n)) == n,
    decreases n,
{
    let d = n % 10;
    assert(digit_char(d) as int == 48 + d);
    if n >= 10 {
        law_years_are_written_in_decimal(n / 10);
        let t = decimal(n);
        assert(t.drop_last() =~= decimal(n / 10));
        assert forall|i: int| 0 <= i < t.len() implies '0' <= #[trigger] t[i] <= '9' by {
            if i < t.len() - 1 {
                assert(t[i] == decimal(n / 10)[i]);
            }
        }
        assert(t[0] == decimal(n / 10)[0]);
        assert(t.last() == digit_char(d));
        assert(digits_value(t) == digits_value(decimal(n / 10)) * 10 + d);
        assert((n / 10) * 10 + d == n);
    } else {
        let t = decimal(n);
        assert(t.drop_last() =~= Seq::<char>::empty());
        assert(digits_value(Seq::<char>::empty()) == 0);
        assert(digits_value(t) == d);
    }
}

} // verus!
