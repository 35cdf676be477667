//! The wheel: its 37 pockets in wheel order, their colours, and the spin.
use rand::Rng;
use vstd::prelude::*;

verus! {

/// The colour of a pocket.
#[derive(Debug, Clone, Copy, PartialEq, Eq, Hash, Structural)]
pub enum Color {
    Red,
    Black,
    /// Reserved for the zero pocket.
    Green,
}

/// The eighteen red numbers of a European wheel.
pub open spec fn is_red_number(n: int) -> bool {
    n == 1 || n == 3 || n == 5 || n == 7 || n == 9 || n == 12 || n == 14 || n == 16 || n == 18
        || n == 19 || n == 21 || n == 23 || n == 25 || n == 27 || n == 30 || n == 32 || n == 34
        || n == 36
}

/// The colour that the number `n` carries on the wheel.
pub open spec fn color_of(n: int) -> Color {
    if n == 0 {
        Color::Green
    } else if is_red_number(n) {
        Color::Red
    } else {
        Color::Black
    }
}

/// The numbers as they stand round the wheel, starting from zero.
pub open spec fn wheel_order() -> Seq<u8> {
    seq![
        0u8, 32, 15, 19, 4, 21, 2, 25, 17, 34, 6, 27, 13, 36, 11, 30, 8, 23, 10, 5, 24, 16, 33, 1,
        20, 14, 31, 9, 22, 18, 29, 7, 28, 12, 35, 3, 26,
    ]
}

/// Where each number stands in `wheel_order`.
pub open spec fn wheel_position() -> Seq<int> {
    seq![
        0int, 23, 6, 35, 4, 19, 10, 31, 16, 27, 18, 14, 33, 12, 25, 2, 21, 8, 29, 3, 24, 5, 28, 17,
        20, 7, 36, 11, 32, 30, 15, 26, 1, 22, 9, 34, 13,
    ]
}

/// Every number from 0 to 36 stands exactly once in `wheel_order`.
pub proof fn lemma_wheel_order_is_permutation()
    ensures
        wheel_order().len() == 37,
        forall|i: int| 0 <= i < 37 ==> (#[trigger] wheel_order()[i]) < 37,
        forall|n: int|
            0 <= n < 37 ==> 0 <= #[trigger] wheel_position()[n] < 37 && wheel_order()[wheel_position()[n]] == n,
        forall|i: int, j: int|
            0 <= i < 37 && 0 <= j < 37 && #[trigger] wheel_order()[i] == #[trigger] wheel_order()[j]
                ==> i == j,
{
    let o = wheel_order();
    let p = wheel_position();
    assert(o.len() == 37);
    assert forall|i: int| 0 <= i < 37 implies o[i] < 37 && p[o[i] as int] == i by {}
    assert forall|n: int| 0 <= n < 37 implies 0 <= p[n] < 37 && o[p[n]] == n by {}
}

/// Whether `n` is one of the red numbers.
fn red_number(n: u8) -> (r: bool)
    ensures
        r == is_red_number(n as int),
{
    n == 1 || n == 3 || n == 5 || n == 7 || n == 9 || n == 12 || n == 14 || n == 16 || n == 18
        || n == 19 || n == 21 || n == 23 || n == 25 || n == 27 || n == 30 || n == 32 || n == 34
        || n == 36
}

/// One pocket of the wheel: a stock ticker with its display name and the
/// labels (categories) it belongs to, its number and its colour.
#[derive(Debug, PartialEq, Eq, Hash)]
pub struct Pocket {
    pub ticker: String,
    pub display_name: String,
    pub categories: Vec<String>,
    /// The number displayed on the pocket (0-36).
    pub number: u8,
    pub color: Color,
}

/// The roulette wheel: its pockets in wheel order, and for each number the
/// place where its pocket stands.
pub struct Wheel {
    pockets: Vec<Pocket>,
    place_of_number: Vec<usize>,
}

/// What a pocket holds, as plain values.
pub struct PocketView {
    pub ticker: Seq<char>,
    pub display_name: Seq<char>,
    pub categories: Seq<Seq<char>>,
    pub number: u8,
    pub color: Color,
}

impl View for Pocket {
    type V = PocketView;

    open spec fn view(&self) -> PocketView {
        PocketView {
            ticker: self.ticker@,
            display_name: self.display_name@,
            categories: self.categories@.map_values(|c: String| c@),
            number: self.number,
            color: self.color,
        }
    }
}

impl Clone for Pocket {
    fn clone(&self) -> (r: Self)
        ensures
            r@ == self@,
    {
        let categories = self.categories.clone();
        assert(categories@ =~= self.categories@);
        Pocket {
            ticker: self.ticker.clone(),
            display_name: self.display_name.clone(),
            categories,
            number: self.number,
            color: self.color,
        }
    }
}

/// Whether `label` is one of the labels that `p` carries.
pub open spec fn has_label(p: PocketView, label: Seq<char>) -> bool {
    p.categories.contains(label)
}

/// Whether some pocket of `pockets` has the ticker `ticker`.
pub open spec fn ticker_on_wheel(pockets: Seq<PocketView>, ticker: Seq<char>) -> bool {
    exists|i: int| 0 <= i < pockets.len() && (#[trigger] pockets[i]).ticker == ticker
}

/// Whether some pocket of `pockets` carries the label `label`.
pub open spec fn label_on_wheel(pockets: Seq<PocketView>, label: Seq<char>) -> bool {
    exists|i: int| 0 <= i < pockets.len() && has_label(#[trigger] pockets[i], label)
}

/// Whether the pocket `p` carries the label `label`.
pub fn pocket_has_label(p: &Pocket, label: &String) -> (r: bool)
    ensures
        r == has_label(p@, label@),
{
    let mut k: usize = 0;
    while k < p.categories.len()
        invariant
            k <= p.categories@.len(),
            forall|j: int| 0 <= j < k ==> (#[trigger] p.categories@[j])@ != label@,
        decreases p.categories@.len() - k,
    {
        if p.categories[k] == *label {
            assert(p@.categories[k as int] == label@);
            return true;
        }
        k = k + 1;
    }
    assert(!p@.categories.contains(label@)) by {
        if p@.categories.contains(label@) {
            let j = choose|j: int| 0 <= j < p@.categories.len() && p@.categories[j] == label@;
            assert(p.categories@[j]@ == label@);
        }
    }
    false
}

/// A wheel of 37 pockets in wheel order, each with the colour of its number.
pub open spec fn is_standard_layout(pockets: Seq<PocketView>) -> bool {
    &&& pockets.len() == 37
    &&& forall|i: int|
        0 <= i < 37 ==> (#[trigger] pockets[i]).number == wheel_order()[i] && pockets[i].color
            == color_of(pockets[i].number as int)
}

/// A pocket definition: the ticker, its display name, and the groups it
/// belongs to followed by the ticker itself. Number and colour are filled in
/// when the definition takes its place on the wheel.
fn pocket_definition(ticker: &str, display_name: &str, groups: Vec<&str>) -> (r: Pocket)
    ensures
        r@ == definition_entry(ticker, display_name, groups@),
{
    let mut categories: Vec<String> = Vec::new();
    let mut k: usize = 0;
    while k < groups.len()
        invariant
            k <= groups@.len(),
            categories@.len() == k,
            forall|j: int| 0 <= j < k ==> (#[trigger] categories@[j])@ == groups@[j]@,
        decreases groups@.len() - k,
    {
        categories.push(String::from_str(groups[k]));
        k = k + 1;
    }
    categories.push(String::from_str(ticker));
    assert(categories@.map_values(|c: String| c@) =~= groups@.map_values(|g: &str| g@).push(ticker@));
    Pocket {
        ticker: String::from_str(ticker),
        display_name: String::from_str(display_name),
        categories,
        number: 0,
        color: Color::Red,
    }
}

impl Default for Wheel {
    fn default() -> (r: Self)
        ensures
            r.wf(),
            is_standard_wheel(r@),
    {
        Self::new()
    }
}

// Labels shared by several pockets.
pub const MAG7: &'static str = "Magnificent Seven";
pub const TECH: &'static str = "Technology";
pub const SP500_HEAVY_A: &'static str = "S&P 500 Heavy A";
pub const GROWTH_DOZEN_A: &'static str = "Growth Dozen A";
pub const OIL_MAJOR: &'static str = "Oil & Gas Major";
pub const ENERGY: &'static str = "Energy";
pub const VALUE_FOCUS_B: &'static str = "Value Focus B";
pub const VALUE_DOZEN_B: &'static str = "Value Dozen B";
pub const BIG_FINANCE: &'static str = "Big Finance";
pub const FINANCIALS: &'static str = "Financials";
pub const BLUE_CHIP_DOZEN_C: &'static str = "Blue Chip Dozen C";

/// The standard wheel: the standard layout, each place carrying the ticker,
/// display name and labels of the definition at that place.
pub open spec fn is_standard_wheel(pockets: Seq<PocketView>) -> bool {
    &&& is_standard_layout(pockets)
    &&& forall|i: int|
        0 <= i < 37 ==> (#[trigger] pockets[i]).ticker == pocket_definitions()[i].ticker
            && pockets[i].display_name == pocket_definitions()[i].display_name
            && pockets[i].categories == pocket_definitions()[i].categories
}

/// The definition of a pocket with the ticker `ticker`, the display name
/// `display_name`, and the labels `groups` followed by the ticker itself.
/// Number and colour are placeholders until the pocket takes its place on
/// the wheel.
pub open spec fn definition_entry(ticker: &str, display_name: &str, groups: Seq<&str>) -> PocketView {
    PocketView {
        ticker: ticker@,
        display_name: display_name@,
        categories: groups.map_values(|g: &str| g@).push(ticker@),
        number: 0,
        color: Color::Red,
    }
}

/// The labels that every pocket of group `g` carries before its own ticker:
/// 0 the zero pocket, 1 growth, 2 value, 3 blue chip, 4 pharma, 5 industrial,
/// 6 legacy tech, 7 telecom, 8 retail, 9 automotive.
pub open spec fn group_labels(g: int) -> Seq<&'static str> {
    if g == 0 {
        seq!["Recession", "Recession"]
    } else if g == 1 {
        seq![MAG7, TECH, SP500_HEAVY_A, GROWTH_DOZEN_A]
    } else if g == 2 {
        seq![OIL_MAJOR, ENERGY, VALUE_FOCUS_B, VALUE_DOZEN_B]
    } else if g == 3 {
        seq![BIG_FINANCE, FINANCIALS, BLUE_CHIP_DOZEN_C, SP500_HEAVY_A]
    } else if g == 4 {
        seq!["Pharma", "Healthcare", "Dividend Aristocrats"]
    } else if g == 5 {
        seq!["Industrial", "Dividend Aristocrats"]
    } else if g == 6 {
        seq!["Legacy Tech", "Dividend Aristocrats"]
    } else if g == 7 {
        seq!["Telecom", "Dividend Aristocrats"]
    } else if g == 8 {
        seq!["Retail", "Consumer", "Dividend Aristocrats"]
    } else if g == 9 {
        seq!["Automotive", "Dividend Aristocrats"]
    } else {
        seq![]
    }
}

/// The labels of group `g`, as `group_labels` gives them.
fn labels_of_group(g: usize) -> (r: Vec<&'static str>)
    requires
        g < 10,
    ensures
        r@ == group_labels(g as int),
{
    if g == 0 {
        vec!["Recession", "Recession"]
    } else if g == 1 {
        vec![MAG7, TECH, SP500_HEAVY_A, GROWTH_DOZEN_A]
    } else if g == 2 {
        vec![OIL_MAJOR, ENERGY, VALUE_FOCUS_B, VALUE_DOZEN_B]
    } else if g == 3 {
        vec![BIG_FINANCE, FINANCIALS, BLUE_CHIP_DOZEN_C, SP500_HEAVY_A]
    } else if g == 4 {
        vec!["Pharma", "Healthcare", "Dividend Aristocrats"]
    } else if g == 5 {
        vec!["Industrial", "Dividend Aristocrats"]
    } else if g == 6 {
        vec!["Legacy Tech", "Dividend Aristocrats"]
    } else if g == 7 {
        vec!["Telecom", "Dividend Aristocrats"]
    } else if g == 8 {
        vec!["Retail", "Consumer", "Dividend Aristocrats"]
    } else {
        vec!["Automotive", "Dividend Aristocrats"]
    }
}

/// The 37 pocket definitions, in the order in which they take their places
/// round the wheel: the zero pocket first, then the growth, value and blue
/// chip groups.
pub open spec fn pocket_definitions() -> Seq<PocketView> {
    seq![
        definition_entry("RCSN", "Recession", group_labels(0)),
        definition_entry("AAPL", "Apple Inc.", group_labels(1)),
        definition_entry("MSFT", "Microsoft Corp.", group_labels(1)),
        definition_entry("GOOGL", "Alphabet Inc.", group_labels(1)),
        definition_entry("AMZN", "Amazon.com Inc.", group_labels(1)),
        definition_entry("NVDA", "NVIDIA Corp.", group_labels(1)),
        definition_entry("META", "Meta Platforms Inc.", group_labels(1)),
        definition_entry("TSLA", "Tesla Inc.", group_labels(1)),
        definition_entry("XOM", "Exxon Mobil Corp.", group_labels(2)),
        definition_entry("CVX", "Chevron Corp.", group_labels(2)),
        definition_entry("COP", "ConocoPhillips", group_labels(2)),
        definition_entry("2222.SR", "Saudi Aramco", group_labels(2)),
        definition_entry("PTR", "PetroChina Co.", group_labels(2)),
        definition_entry("JPM", "JPMorgan Chase & Co.", group_labels(3)),
        definition_entry("BRK-A", "Berkshire Hathaway Inc.", group_labels(3)),
        definition_entry("WFC", "Wells Fargo & Co.", group_labels(3)),
        definition_entry("V", "Visa Inc.", group_labels(3)),
        definition_entry("MA", "Mastercard Inc.", group_labels(3)),
        definition_entry("PFE", "Pfizer Inc.", group_labels(4)),
        definition_entry("JNJ", "Johnson & Johnson", group_labels(4)),
        definition_entry("UNH", "UnitedHealth Group", group_labels(4)),
        definition_entry("GE", "General Electric", group_labels(5)),
        definition_entry("IBM", "IBM Corp.", group_labels(6)),
        definition_entry("INTC", "Intel Corp.", group_labels(6)),
        definition_entry("CSCO", "Cisco Systems", group_labels(6)),
        definition_entry("T", "AT&T Inc.", group_labels(7)),
        definition_entry("VZ", "Verizon Communications", group_labels(7)),
        definition_entry("HD", "Home Depot", group_labels(8)),
        definition_entry("WMT", "Walmart Inc.", group_labels(8)),
        definition_entry("KO", "Coca-Cola Co.", group_labels(8)),
        definition_entry("PEP", "PepsiCo Inc.", group_labels(8)),
        definition_entry("PG", "Procter & Gamble", group_labels(8)),
        definition_entry("MCD", "McDonald's Corp.", group_labels(8)),
        definition_entry("NKE", "Nike Inc.", group_labels(8)),
        definition_entry("COST", "Costco Wholesale", group_labels(8)),
        definition_entry("F", "Ford Motor Co.", group_labels(9)),
        definition_entry("GM", "General Motors Co.", group_labels(9)),
    ]
}

/// A sequence with one more element contains what the shorter one did, and
/// the new element.
proof fn lemma_push_contains(s: Seq<Seq<char>>, x: Seq<char>, y: Seq<char>)
    ensures
        s.push(x).contains(y) <==> s.contains(y) || x == y,
{
    if s.contains(y) {
        let k = choose|k: int| 0 <= k < s.len() && s[k] == y;
        assert(s.push(x)[k] == y);
    }
    if x == y {
        assert(s.push(x)[s.len() as int] == y);
    }
    if s.push(x).contains(y) {
        let k = choose|k: int| 0 <= k < s.push(x).len() && s.push(x)[k] == y;
        if k < s.len() {
            assert(s[k] == y);
        }
    }
}

/// Group 1 alone carries the growth dozen label, group 2 alone the value
/// dozen label, group 3 alone the blue chip dozen label.
#[verifier::spinoff_prover]
proof fn lemma_group_dozen_labels(g: int)
    requires
        0 <= g < 10,
    ensures
        group_labels(g).map_values(|l: &str| l@).contains(GROWTH_DOZEN_A@) <==> g == 1,
        group_labels(g).map_values(|l: &str| l@).contains(VALUE_DOZEN_B@) <==> g == 2,
        group_labels(g).map_values(|l: &str| l@).contains(BLUE_CHIP_DOZEN_C@) <==> g == 3,
{
    reveal_strlit("Automotive");
    reveal_strlit("Big Finance");
    reveal_strlit("Blue Chip Dozen C");
    reveal_strlit("Consumer");
    reveal_strlit("Dividend Aristocrats");
    reveal_strlit("Energy");
    reveal_strlit("Financials");
    reveal_strlit("Growth Dozen A");
    reveal_strlit("Healthcare");
    reveal_strlit("Industrial");
    reveal_strlit("Legacy Tech");
    reveal_strlit("Magnificent Seven");
    reveal_strlit("Oil & Gas Major");
    reveal_strlit("Pharma");
    reveal_strlit("Recession");
    reveal_strlit("Retail");
    reveal_strlit("S&P 500 Heavy A");
    reveal_strlit("Technology");
    reveal_strlit("Telecom");
    reveal_strlit("Value Dozen B");
    reveal_strlit("Value Focus B");
    if g == 0 {
        let m = group_labels(0).map_values(|l: &str| l@);
        assert(m =~= seq!["Recession"@, "Recession"@]);
        assert("Recession"@.len() != "Growth Dozen A"@.len());
        assert("Recession"@.len() != "Value Dozen B"@.len());
        assert("Recession"@.len() != "Blue Chip Dozen C"@.len());
    } else if g == 1 {
        let m = group_labels(1).map_values(|l: &str| l@);
        assert(m =~= seq![MAG7@, TECH@, SP500_HEAVY_A@, GROWTH_DOZEN_A@]);
        assert(m[3] == GROWTH_DOZEN_A@);
        assert("Magnificent Seven"@.len() != "Growth Dozen A"@.len());
        assert("Magnificent Seven"@.len() != "Value Dozen B"@.len());
        assert("Magnificent Seven"@[0] != "Blue Chip Dozen C"@[0]);
        assert("Technology"@.len() != "Growth Dozen A"@.len());
        assert("Technology"@.len() != "Value Dozen B"@.len());
        assert("Technology"@.len() != "Blue Chip Dozen C"@.len());
        assert("S&P 500 Heavy A"@.len() != "Growth Dozen A"@.len());
        assert("S&P 500 Heavy A"@.len() != "Value Dozen B"@.len());
        assert("S&P 500 Heavy A"@.len() != "Blue Chip Dozen C"@.len());
        assert("Growth Dozen A"@.len() != "Value Dozen B"@.len());
        assert("Growth Dozen A"@.len() != "Blue Chip Dozen C"@.len());
    } else if g == 2 {
        let m = group_labels(2).map_values(|l: &str| l@);
        assert(m =~= seq![OIL_MAJOR@, ENERGY@, VALUE_FOCUS_B@, VALUE_DOZEN_B@]);
        assert(m[3] == VALUE_DOZEN_B@);
        assert("Oil & Gas Major"@.len() != "Growth Dozen A"@.len());
        assert("Oil & Gas Major"@.len() != "Value Dozen B"@.len());
        assert("Oil & Gas Major"@.len() != "Blue Chip Dozen C"@.len());
        assert("Energy"@.len() != "Growth Dozen A"@.len());
        assert("Energy"@.len() != "Value Dozen B"@.len());
        assert("Energy"@.len() != "Blue Chip Dozen C"@.len());
        assert("Value Focus B"@.len() != "Growth Dozen A"@.len());
        assert("Value Focus B"@[6] != "Value Dozen B"@[6]);
        assert("Value Focus B"@.len() != "Blue Chip Dozen C"@.len());
        assert("Value Dozen B"@.len() != "Growth Dozen A"@.len());
        assert("Value Dozen B"@.len() != "Blue Chip Dozen C"@.len());
    } else if g == 3 {
        let m = group_labels(3).map_values(|l: &str| l@);
        assert(m =~= seq![BIG_FINANCE@, FINANCIALS@, BLUE_CHIP_DOZEN_C@, SP500_HEAVY_A@]);
        assert(m[2] == BLUE_CHIP_DOZEN_C@);
        assert("Big Finance"@.len() != "Growth Dozen A"@.len());
        assert("Big Finance"@.len() != "Value Dozen B"@.len());
        assert("Big Finance"@.len() != "Blue Chip Dozen C"@.len());
        assert("Financials"@.len() != "Growth Dozen A"@.len());
        assert("Financials"@.len() != "Value Dozen B"@.len());
        assert("Financials"@.len() != "Blue Chip Dozen C"@.len());
        assert("Blue Chip Dozen C"@.len() != "Growth Dozen A"@.len());
        assert("Blue Chip Dozen C"@.len() != "Value Dozen B"@.len());
        assert("S&P 500 Heavy A"@.len() != "Growth Dozen A"@.len());
        assert("S&P 500 Heavy A"@.len() != "Value Dozen B"@.len());
        assert("S&P 500 Heavy A"@.len() != "Blue Chip Dozen C"@.len());
    } else if g == 4 {
        let m = group_labels(4).map_values(|l: &str| l@);
        assert(m =~= seq!["Pharma"@, "Healthcare"@, "Dividend Aristocrats"@]);
        assert("Pharma"@.len() != "Growth Dozen A"@.len());
        assert("Pharma"@.len() != "Value Dozen B"@.len());
        assert("Pharma"@.len() != "Blue Chip Dozen C"@.len());
        assert("Healthcare"@.len() != "Growth Dozen A"@.len());
        assert("Healthcare"@.len() != "Value Dozen B"@.len());
        assert("Healthcare"@.len() != "Blue Chip Dozen C"@.len());
        assert("Dividend Aristocrats"@.len() != "Growth Dozen A"@.len());
        assert("Dividend Aristocrats"@.len() != "Value Dozen B"@.len());
        assert("Dividend Aristocrats"@.len() != "Blue Chip Dozen C"@.len());
    } else if g == 5 {
        let m = group_labels(5).map_values(|l: &str| l@);
        assert(m =~= seq!["Industrial"@, "Dividend Aristocrats"@]);
        assert("Industrial"@.len() != "Growth Dozen A"@.len());
        assert("Industrial"@.len() != "Value Dozen B"@.len());
        assert("Industrial"@.len() != "Blue Chip Dozen C"@.len());
        assert("Dividend Aristocrats"@.len() != "Growth Dozen A"@.len());
        assert("Dividend Aristocrats"@.len() != "Value Dozen B"@.len());
        assert("Dividend Aristocrats"@.len() != "Blue Chip Dozen C"@.len());
    } else if g == 6 {
        let m = group_labels(6).map_values(|l: &str| l@);
        assert(m =~= seq!["Legacy Tech"@, "Dividend Aristocrats"@]);
        assert("Legacy Tech"@.len() != "Growth Dozen A"@.len());
        assert("Legacy Tech"@.len() != "Value Dozen B"@.len());
        assert("Legacy Tech"@.len() != "Blue Chip Dozen C"@.len());
        assert("Dividend Aristocrats"@.len() != "Growth Dozen A"@.len());
        assert("Dividend Aristocrats"@.len() != "Value Dozen B"@.len());
        assert("Dividend Aristocrats"@.len() != "Blue Chip Dozen C"@.len());
    } else if g == 7 {
        let m = group_labels(7).map_values(|l: &str| l@);
        assert(m =~= seq!["Telecom"@, "Dividend Aristocrats"@]);
        assert("Telecom"@.len() != "Growth Dozen A"@.len());
        assert("Telecom"@.len() != "Value Dozen B"@.len());
        assert("Telecom"@.len() != "Blue Chip Dozen C"@.len());
        assert("Dividend Aristocrats"@.len() != "Growth Dozen A"@.len());
        assert("Dividend Aristocrats"@.len() != "Value Dozen B"@.len());
        assert("Dividend Aristocrats"@.len() != "Blue Chip Dozen C"@.len());
    } else if g == 8 {
        let m = group_labels(8).map_values(|l: &str| l@);
        assert(m =~= seq!["Retail"@, "Consumer"@, "Dividend Aristocrats"@]);
        assert("Retail"@.len() != "Growth Dozen A"@.len());
        assert("Retail"@.len() != "Value Dozen B"@.len());
        assert("Retail"@.len() != "Blue Chip Dozen C"@.len());
        assert("Consumer"@.len() != "Growth Dozen A"@.len());
        assert("Consumer"@.len() != "Value Dozen B"@.len());
        assert("Consumer"@.len() != "Blue Chip Dozen C"@.len());
        assert("Dividend Aristocrats"@.len() != "Growth Dozen A"@.len());
        assert("Dividend Aristocrats"@.len() != "Value Dozen B"@.len());
        assert("Dividend Aristocrats"@.len() != "Blue Chip Dozen C"@.len());
    } else if g == 9 {
        let m = group_labels(9).map_values(|l: &str| l@);
        assert(m =~= seq!["Automotive"@, "Dividend Aristocrats"@]);
        assert("Automotive"@.len() != "Growth Dozen A"@.len());
        assert("Automotive"@.len() != "Value Dozen B"@.len());
        assert("Automotive"@.len() != "Blue Chip Dozen C"@.len());
        assert("Dividend Aristocrats"@.len() != "Growth Dozen A"@.len());
        assert("Dividend Aristocrats"@.len() != "Value Dozen B"@.len());
        assert("Dividend Aristocrats"@.len() != "Blue Chip Dozen C"@.len());
    }
}

/// What the definition at place `i` holds: its display name is not empty,
/// and it carries a dozen label exactly where its group does.
#[verifier::spinoff_prover]
#[verifier::rlimit(100)]
proof fn lemma_definition_at(i: int)
    requires
        0 <= i < 37,
    ensures
        pocket_definitions()[i].display_name.len() > 0,
        has_label(pocket_definitions()[i], GROWTH_DOZEN_A@) <==> 1 <= i <= 7,
        has_label(pocket_definitions()[i], VALUE_DOZEN_B@) <==> 8 <= i <= 12,
        has_label(pocket_definitions()[i], BLUE_CHIP_DOZEN_C@) <==> 13 <= i <= 17,
{
    reveal_strlit("2222.SR");
    reveal_strlit("AAPL");
    reveal_strlit("AMZN");
    reveal_strlit("AT&T Inc.");
    reveal_strlit("Alphabet Inc.");
    reveal_strlit("Amazon.com Inc.");
    reveal_strlit("Apple Inc.");
    reveal_strlit("BRK-A");
    reveal_strlit("Berkshire Hathaway Inc.");
    reveal_strlit("Blue Chip Dozen C");
    reveal_strlit("COP");
    reveal_strlit("COST");
    reveal_strlit("CSCO");
    reveal_strlit("CVX");
    reveal_strlit("Chevron Corp.");
    reveal_strlit("Cisco Systems");
    reveal_strlit("Coca-Cola Co.");
    reveal_strlit("ConocoPhillips");
    reveal_strlit("Costco Wholesale");
    reveal_strlit("Exxon Mobil Corp.");
    reveal_strlit("F");
    reveal_strlit("Ford Motor Co.");
    reveal_strlit("GE");
    reveal_strlit("GM");
    reveal_strlit("GOOGL");
    reveal_strlit("General Electric");
    reveal_strlit("General Motors Co.");
    reveal_strlit("Growth Dozen A");
    reveal_strlit("HD");
    reveal_strlit("Home Depot");
    reveal_strlit("IBM Corp.");
    reveal_strlit("IBM");
    reveal_strlit("INTC");
    reveal_strlit("Intel Corp.");
    reveal_strlit("JNJ");
    reveal_strlit("JPM");
    reveal_strlit("JPMorgan Chase & Co.");
    reveal_strlit("Johnson & Johnson");
    reveal_strlit("KO");
    reveal_strlit("MA");
    reveal_strlit("MCD");
    reveal_strlit("META");
    reveal_strlit("MSFT");
    reveal_strlit("Mastercard Inc.");
    reveal_strlit("McDonald's Corp.");
    reveal_strlit("Meta Platforms Inc.");
    reveal_strlit("Microsoft Corp.");
    reveal_strlit("NKE");
    reveal_strlit("NVDA");
    reveal_strlit("NVIDIA Corp.");
    reveal_strlit("Nike Inc.");
    reveal_strlit("PEP");
    reveal_strlit("PFE");
    reveal_strlit("PG");
    reveal_strlit("PTR");
    reveal_strlit("PepsiCo Inc.");
    reveal_strlit("PetroChina Co.");
    reveal_strlit("Pfizer Inc.");
    reveal_strlit("Procter & Gamble");
    reveal_strlit("RCSN");
    reveal_strlit("Recession");
    reveal_strlit("Saudi Aramco");
    reveal_strlit("T");
    reveal_strlit("TSLA");
    reveal_strlit("Tesla Inc.");
    reveal_strlit("UNH");
    reveal_strlit("UnitedHealth Group");
    reveal_strlit("V");
    reveal_strlit("VZ");
    reveal_strlit("Value Dozen B");
    reveal_strlit("Verizon Communications");
    reveal_strlit("Visa Inc.");
    reveal_strlit("WFC");
    reveal_strlit("WMT");
    reveal_strlit("Walmart Inc.");
    reveal_strlit("Wells Fargo & Co.");
    reveal_strlit("XOM");
    if i == 0 {
        assert("RCSN"@.len() != "Growth Dozen A"@.len());
        assert("RCSN"@.len() != "Value Dozen B"@.len());
        assert("RCSN"@.len() != "Blue Chip Dozen C"@.len());
        lemma_group_dozen_labels(0);
        lemma_push_contains(group_labels(0).map_values(|l: &str| l@), "RCSN"@, GROWTH_DOZEN_A@);
        lemma_push_contains(group_labels(0).map_values(|l: &str| l@), "RCSN"@, VALUE_DOZEN_B@);
        lemma_push_contains(group_labels(0).map_values(|l: &str| l@), "RCSN"@, BLUE_CHIP_DOZEN_C@);
    } else if i == 1 {
        assert("AAPL"@.len() != "Growth Dozen A"@.len());
        assert("AAPL"@.len() != "Value Dozen B"@.len());
        assert("AAPL"@.len() != "Blue Chip Dozen C"@.len());
        lemma_group_dozen_labels(1);
        lemma_push_contains(group_labels(1).map_values(|l: &str| l@), "AAPL"@, GROWTH_DOZEN_A@);
        lemma_push_contains(group_labels(1).map_values(|l: &str| l@), "AAPL"@, VALUE_DOZEN_B@);
        lemma_push_contains(group_labels(1).map_values(|l: &str| l@), "AAPL"@, BLUE_CHIP_DOZEN_C@);
    } else if i == 2 {
        assert("MSFT"@.len() != "Growth Dozen A"@.len());
        assert("MSFT"@.len() != "Value Dozen B"@.len());
        assert("MSFT"@.len() != "Blue Chip Dozen C"@.len());
        lemma_group_dozen_labels(1);
        lemma_push_contains(group_labels(1).map_values(|l: &str| l@), "MSFT"@, GROWTH_DOZEN_A@);
        lemma_push_contains(group_labels(1).map_values(|l: &str| l@), "MSFT"@, VALUE_DOZEN_B@);
        lemma_push_contains(group_labels(1).map_values(|l: &str| l@), "MSFT"@, BLUE_CHIP_DOZEN_C@);
    } else if i == 3 {
        assert("GOOGL"@.len() != "Growth Dozen A"@.len());
        assert("GOOGL"@.len() != "Value Dozen B"@.len());
        assert("GOOGL"@.len() != "Blue Chip Dozen C"@.len());
        lemma_group_dozen_labels(1);
        lemma_push_contains(group_labels(1).map_values(|l: &str| l@), "GOOGL"@, GROWTH_DOZEN_A@);
        lemma_push_contains(group_labels(1).map_values(|l: &str| l@), "GOOGL"@, VALUE_DOZEN_B@);
        lemma_push_contains(group_labels(1).map_values(|l: &str| l@), "GOOGL"@, BLUE_CHIP_DOZEN_C@);
    } else if i == 4 {
        assert("AMZN"@.len() != "Growth Dozen A"@.len());
        assert("AMZN"@.len() != "Value Dozen B"@.len());
        assert("AMZN"@.len() != "Blue Chip Dozen C"@.len());
        lemma_group_dozen_labels(1);
        lemma_push_contains(group_labels(1).map_values(|l: &str| l@), "AMZN"@, GROWTH_DOZEN_A@);
        lemma_push_contains(group_labels(1).map_values(|l: &str| l@), "AMZN"@, VALUE_DOZEN_B@);
        lemma_push_contains(group_labels(1).map_values(|l: &str| l@), "AMZN"@, BLUE_CHIP_DOZEN_C@);
    } else if i == 5 {
        assert("NVDA"@.len() != "Growth Dozen A"@.len());
        assert("NVDA"@.len() != "Value Dozen B"@.len());
        assert("NVDA"@.len() != "Blue Chip Dozen C"@.len());
        lemma_group_dozen_labels(1);
        lemma_push_contains(group_labels(1).map_values(|l: &str| l@), "NVDA"@, GROWTH_DOZEN_A@);
        lemma_push_contains(group_labels(1).map_values(|l: &str| l@), "NVDA"@, VALUE_DOZEN_B@);
        lemma_push_contains(group_labels(1).map_values(|l: &str| l@), "NVDA"@, BLUE_CHIP_DOZEN_C@);
    } else if i == 6 {
        assert("META"@.len() != "Growth Dozen A"@.len());
        assert("META"@.len() != "Value Dozen B"@.len());
        assert("META"@.len() != "Blue Chip Dozen C"@.len());
        lemma_group_dozen_labels(1);
        lemma_push_contains(group_labels(1).map_values(|l: &str| l@), "META"@, GROWTH_DOZEN_A@);
        lemma_push_contains(group_labels(1).map_values(|l: &str| l@), "META"@, VALUE_DOZEN_B@);
        lemma_push_contains(group_labels(1).map_values(|l: &str| l@), "META"@, BLUE_CHIP_DOZEN_C@);
    } else if i == 7 {
        assert("TSLA"@.len() != "Growth Dozen A"@.len());
        assert("TSLA"@.len() != "Value Dozen B"@.len());
        assert("TSLA"@.len() != "Blue Chip Dozen C"@.len());
        lemma_group_dozen_labels(1);
        lemma_push_contains(group_labels(1).map_values(|l: &str| l@), "TSLA"@, GROWTH_DOZEN_A@);
        lemma_push_contains(group_labels(1).map_values(|l: &str| l@), "TSLA"@, VALUE_DOZEN_B@);
        lemma_push_contains(group_labels(1).map_values(|l: &str| l@), "TSLA"@, BLUE_CHIP_DOZEN_C@);
    } else if i == 8 {
        assert("XOM"@.len() != "Growth Dozen A"@.len());
        assert("XOM"@.len() != "Value Dozen B"@.len());
        assert("XOM"@.len() != "Blue Chip Dozen C"@.len());
        lemma_group_dozen_labels(2);
        lemma_push_contains(group_labels(2).map_values(|l: &str| l@), "XOM"@, GROWTH_DOZEN_A@);
        lemma_push_contains(group_labels(2).map_values(|l: &str| l@), "XOM"@, VALUE_DOZEN_B@);
        lemma_push_contains(group_labels(2).map_values(|l: &str| l@), "XOM"@, BLUE_CHIP_DOZEN_C@);
    } else if i == 9 {
        assert("CVX"@.len() != "Growth Dozen A"@.len());
        assert("CVX"@.len() != "Value Dozen B"@.len());
        assert("CVX"@.len() != "Blue Chip Dozen C"@.len());
        lemma_group_dozen_labels(2);
        lemma_push_contains(group_labels(2).map_values(|l: &str| l@), "CVX"@, GROWTH_DOZEN_A@);
        lemma_push_contains(group_labels(2).map_values(|l: &str| l@), "CVX"@, VALUE_DOZEN_B@);
        lemma_push_contains(group_labels(2).map_values(|l: &str| l@), "CVX"@, BLUE_CHIP_DOZEN_C@);
    } else if i == 10 {
        assert("COP"@.len() != "Growth Dozen A"@.len());
        assert("COP"@.len() != "Value Dozen B"@.len());
        assert("COP"@.len() != "Blue Chip Dozen C"@.len());
        lemma_group_dozen_labels(2);
        lemma_push_contains(group_labels(2).map_values(|l: &str| l@), "COP"@, GROWTH_DOZEN_A@);
        lemma_push_contains(group_labels(2).map_values(|l: &str| l@), "COP"@, VALUE_DOZEN_B@);
        lemma_push_contains(group_labels(2).map_values(|l: &str| l@), "COP"@, BLUE_CHIP_DOZEN_C@);
    } else if i == 11 {
        assert("2222.SR"@.len() != "Growth Dozen A"@.len());
        assert("2222.SR"@.len() != "Value Dozen B"@.len());
        assert("2222.SR"@.len() != "Blue Chip Dozen C"@.len());
        lemma_group_dozen_labels(2);
        lemma_push_contains(group_labels(2).map_values(|l: &str| l@), "2222.SR"@, GROWTH_DOZEN_A@);
        lemma_push_contains(group_labels(2).map_values(|l: &str| l@), "2222.SR"@, VALUE_DOZEN_B@);
        lemma_push_contains(group_labels(2).map_values(|l: &str| l@), "2222.SR"@, BLUE_CHIP_DOZEN_C@);
    } else if i == 12 {
        assert("PTR"@.len() != "Growth Dozen A"@.len());
        assert("PTR"@.len() != "Value Dozen B"@.len());
        assert("PTR"@.len() != "Blue Chip Dozen C"@.len());
        lemma_group_dozen_labels(2);
        lemma_push_contains(group_labels(2).map_values(|l: &str| l@), "PTR"@, GROWTH_DOZEN_A@);
        lemma_push_contains(group_labels(2).map_values(|l: &str| l@), "PTR"@, VALUE_DOZEN_B@);
        lemma_push_contains(group_labels(2).map_values(|l: &str| l@), "PTR"@, BLUE_CHIP_DOZEN_C@);
    } else if i == 13 {
        assert("JPM"@.len() != "Growth Dozen A"@.len());
        assert("JPM"@.len() != "Value Dozen B"@.len());
        assert("JPM"@.len() != "Blue Chip Dozen C"@.len());
        lemma_group_dozen_labels(3);
        lemma_push_contains(group_labels(3).map_values(|l: &str| l@), "JPM"@, GROWTH_DOZEN_A@);
        lemma_push_contains(group_labels(3).map_values(|l: &str| l@), "JPM"@, VALUE_DOZEN_B@);
        lemma_push_contains(group_labels(3).map_values(|l: &str| l@), "JPM"@, BLUE_CHIP_DOZEN_C@);
    } else if i == 14 {
        assert("BRK-A"@.len() != "Growth Dozen A"@.len());
        assert("BRK-A"@.len() != "Value Dozen B"@.len());
        assert("BRK-A"@.len() != "Blue Chip Dozen C"@.len());
        lemma_group_dozen_labels(3);
        lemma_push_contains(group_labels(3).map_values(|l: &str| l@), "BRK-A"@, GROWTH_DOZEN_A@);
        lemma_push_contains(group_labels(3).map_values(|l: &str| l@), "BRK-A"@, VALUE_DOZEN_B@);
        lemma_push_contains(group_labels(3).map_values(|l: &str| l@), "BRK-A"@, BLUE_CHIP_DOZEN_C@);
    } else if i == 15 {
        assert("WFC"@.len() != "Growth Dozen A"@.len());
        assert("WFC"@.len() != "Value Dozen B"@.len());
        assert("WFC"@.len() != "Blue Chip Dozen C"@.len());
        lemma_group_dozen_labels(3);
        lemma_push_contains(group_labels(3).map_values(|l: &str| l@), "WFC"@, GROWTH_DOZEN_A@);
        lemma_push_contains(group_labels(3).map_values(|l: &str| l@), "WFC"@, VALUE_DOZEN_B@);
        lemma_push_contains(group_labels(3).map_values(|l: &str| l@), "WFC"@, BLUE_CHIP_DOZEN_C@);
    } else if i == 16 {
        assert("V"@.len() != "Growth Dozen A"@.len());
        assert("V"@.len() != "Value Dozen B"@.len());
        assert("V"@.len() != "Blue Chip Dozen C"@.len());
        lemma_group_dozen_labels(3);
        lemma_push_contains(group_labels(3).map_values(|l: &str| l@), "V"@, GROWTH_DOZEN_A@);
        lemma_push_contains(group_labels(3).map_values(|l: &str| l@), "V"@, VALUE_DOZEN_B@);
        lemma_push_contains(group_labels(3).map_values(|l: &str| l@), "V"@, BLUE_CHIP_DOZEN_C@);
    } else if i == 17 {
        assert("MA"@.len() != "Growth Dozen A"@.len());
        assert("MA"@.len() != "Value Dozen B"@.len());
        assert("MA"@.len() != "Blue Chip Dozen C"@.len());
        lemma_group_dozen_labels(3);
        lemma_push_contains(group_labels(3).map_values(|l: &str| l@), "MA"@, GROWTH_DOZEN_A@);
        lemma_push_contains(group_labels(3).map_values(|l: &str| l@), "MA"@, VALUE_DOZEN_B@);
        lemma_push_contains(group_labels(3).map_values(|l: &str| l@), "MA"@, BLUE_CHIP_DOZEN_C@);
    } else if i == 18 {
        assert("PFE"@.len() != "Growth Dozen A"@.len());
        assert("PFE"@.len() != "Value Dozen B"@.len());
        assert("PFE"@.len() != "Blue Chip Dozen C"@.len());
        lemma_group_dozen_labels(4);
        lemma_push_contains(group_labels(4).map_values(|l: &str| l@), "PFE"@, GROWTH_DOZEN_A@);
        lemma_push_contains(group_labels(4).map_values(|l: &str| l@), "PFE"@, VALUE_DOZEN_B@);
        lemma_push_contains(group_labels(4).map_values(|l: &str| l@), "PFE"@, BLUE_CHIP_DOZEN_C@);
    } else if i == 19 {
        assert("JNJ"@.len() != "Growth Dozen A"@.len());
        assert("JNJ"@.len() != "Value Dozen B"@.len());
        assert("JNJ"@.len() != "Blue Chip Dozen C"@.len());
        lemma_group_dozen_labels(4);
        lemma_push_contains(group_labels(4).map_values(|l: &str| l@), "JNJ"@, GROWTH_DOZEN_A@);
        lemma_push_contains(group_labels(4).map_values(|l: &str| l@), "JNJ"@, VALUE_DOZEN_B@);
        lemma_push_contains(group_labels(4).map_values(|l: &str| l@), "JNJ"@, BLUE_CHIP_DOZEN_C@);
    } else if i == 20 {
        assert("UNH"@.len() != "Growth Dozen A"@.len());
        assert("UNH"@.len() != "Value Dozen B"@.len());
        assert("UNH"@.len() != "Blue Chip Dozen C"@.len());
        lemma_group_dozen_labels(4);
        lemma_push_contains(group_labels(4).map_values(|l: &str| l@), "UNH"@, GROWTH_DOZEN_A@);
        lemma_push_contains(group_labels(4).map_values(|l: &str| l@), "UNH"@, VALUE_DOZEN_B@);
        lemma_push_contains(group_labels(4).map_values(|l: &str| l@), "UNH"@, BLUE_CHIP_DOZEN_C@);
    } else if i == 21 {
        assert("GE"@.len() != "Growth Dozen A"@.len());
        assert("GE"@.len() != "Value Dozen B"@.len());
        assert("GE"@.len() != "Blue Chip Dozen C"@.len());
        lemma_group_dozen_labels(5);
        lemma_push_contains(group_labels(5).map_values(|l: &str| l@), "GE"@, GROWTH_DOZEN_A@);
        lemma_push_contains(group_labels(5).map_values(|l: &str| l@), "GE"@, VALUE_DOZEN_B@);
        lemma_push_contains(group_labels(5).map_values(|l: &str| l@), "GE"@, BLUE_CHIP_DOZEN_C@);
    } else if i == 22 {
        assert("IBM"@.len() != "Growth Dozen A"@.len());
        assert("IBM"@.len() != "Value Dozen B"@.len());
        assert("IBM"@.len() != "Blue Chip Dozen C"@.len());
        lemma_group_dozen_labels(6);
        lemma_push_contains(group_labels(6).map_values(|l: &str| l@), "IBM"@, GROWTH_DOZEN_A@);
        lemma_push_contains(group_labels(6).map_values(|l: &str| l@), "IBM"@, VALUE_DOZEN_B@);
        lemma_push_contains(group_labels(6).map_values(|l: &str| l@), "IBM"@, BLUE_CHIP_DOZEN_C@);
    } else if i == 23 {
        assert("INTC"@.len() != "Growth Dozen A"@.len());
        assert("INTC"@.len() != "Value Dozen B"@.len());
        assert("INTC"@.len() != "Blue Chip Dozen C"@.len());
        lemma_group_dozen_labels(6);
        lemma_push_contains(group_labels(6).map_values(|l: &str| l@), "INTC"@, GROWTH_DOZEN_A@);
        lemma_push_contains(group_labels(6).map_values(|l: &str| l@), "INTC"@, VALUE_DOZEN_B@);
        lemma_push_contains(group_labels(6).map_values(|l: &str| l@), "INTC"@, BLUE_CHIP_DOZEN_C@);
    } else if i == 24 {
        assert("CSCO"@.len() != "Growth Dozen A"@.len());
        assert("CSCO"@.len() != "Value Dozen B"@.len());
        assert("CSCO"@.len() != "Blue Chip Dozen C"@.len());
        lemma_group_dozen_labels(6);
        lemma_push_contains(group_labels(6).map_values(|l: &str| l@), "CSCO"@, GROWTH_DOZEN_A@);
        lemma_push_contains(group_labels(6).map_values(|l: &str| l@), "CSCO"@, VALUE_DOZEN_B@);
        lemma_push_contains(group_labels(6).map_values(|l: &str| l@), "CSCO"@, BLUE_CHIP_DOZEN_C@);
    } else if i == 25 {
        assert("T"@.len() != "Growth Dozen A"@.len());
        assert("T"@.len() != "Value Dozen B"@.len());
        assert("T"@.len() != "Blue Chip Dozen C"@.len());
        lemma_group_dozen_labels(7);
        lemma_push_contains(group_labels(7).map_values(|l: &str| l@), "T"@, GROWTH_DOZEN_A@);
        lemma_push_contains(group_labels(7).map_values(|l: &str| l@), "T"@, VALUE_DOZEN_B@);
        lemma_push_contains(group_labels(7).map_values(|l: &str| l@), "T"@, BLUE_CHIP_DOZEN_C@);
    } else if i == 26 {
        assert("VZ"@.len() != "Growth Dozen A"@.len());
        assert("VZ"@.len() != "Value Dozen B"@.len());
        assert("VZ"@.len() != "Blue Chip Dozen C"@.len());
        lemma_group_dozen_labels(7);
        lemma_push_contains(group_labels(7).map_values(|l: &str| l@), "VZ"@, GROWTH_DOZEN_A@);
        lemma_push_contains(group_labels(7).map_values(|l: &str| l@), "VZ"@, VALUE_DOZEN_B@);
        lemma_push_contains(group_labels(7).map_values(|l: &str| l@), "VZ"@, BLUE_CHIP_DOZEN_C@);
    } else if i == 27 {
        assert("HD"@.len() != "Growth Dozen A"@.len());
        assert("HD"@.len() != "Value Dozen B"@.len());
        assert("HD"@.len() != "Blue Chip Dozen C"@.len());
        lemma_group_dozen_labels(8);
        lemma_push_contains(group_labels(8).map_values(|l: &str| l@), "HD"@, GROWTH_DOZEN_A@);
        lemma_push_contains(group_labels(8).map_values(|l: &str| l@), "HD"@, VALUE_DOZEN_B@);
        lemma_push_contains(group_labels(8).map_values(|l: &str| l@), "HD"@, BLUE_CHIP_DOZEN_C@);
    } else if i == 28 {
        assert("WMT"@.len() != "Growth Dozen A"@.len());
        assert("WMT"@.len() != "Value Dozen B"@.len());
        assert("WMT"@.len() != "Blue Chip Dozen C"@.len());
        lemma_group_dozen_labels(8);
        lemma_push_contains(group_labels(8).map_values(|l: &str| l@), "WMT"@, GROWTH_DOZEN_A@);
        lemma_push_contains(group_labels(8).map_values(|l: &str| l@), "WMT"@, VALUE_DOZEN_B@);
        lemma_push_contains(group_labels(8).map_values(|l: &str| l@), "WMT"@, BLUE_CHIP_DOZEN_C@);
    } else if i == 29 {
        assert("KO"@.len() != "Growth Dozen A"@.len());
        assert("KO"@.len() != "Value Dozen B"@.len());
        assert("KO"@.len() != "Blue Chip Dozen C"@.len());
        lemma_group_dozen_labels(8);
        lemma_push_contains(group_labels(8).map_values(|l: &str| l@), "KO"@, GROWTH_DOZEN_A@);
        lemma_push_contains(group_labels(8).map_values(|l: &str| l@), "KO"@, VALUE_DOZEN_B@);
        lemma_push_contains(group_labels(8).map_values(|l: &str| l@), "KO"@, BLUE_CHIP_DOZEN_C@);
    } else if i == 30 {
        assert("PEP"@.len() != "Growth Dozen A"@.len());
        assert("PEP"@.len() != "Value Dozen B"@.len());
        assert("PEP"@.len() != "Blue Chip Dozen C"@.len());
        lemma_group_dozen_labels(8);
        lemma_push_contains(group_labels(8).map_values(|l: &str| l@), "PEP"@, GROWTH_DOZEN_A@);
        lemma_push_contains(group_labels(8).map_values(|l: &str| l@), "PEP"@, VALUE_DOZEN_B@);
        lemma_push_contains(group_labels(8).map_values(|l: &str| l@), "PEP"@, BLUE_CHIP_DOZEN_C@);
    } else if i == 31 {
        assert("PG"@.len() != "Growth Dozen A"@.len());
        assert("PG"@.len() != "Value Dozen B"@.len());
        assert("PG"@.len() != "Blue Chip Dozen C"@.len());
        lemma_group_dozen_labels(8);
        lemma_push_contains(group_labels(8).map_values(|l: &str| l@), "PG"@, GROWTH_DOZEN_A@);
        lemma_push_contains(group_labels(8).map_values(|l: &str| l@), "PG"@, VALUE_DOZEN_B@);
        lemma_push_contains(group_labels(8).map_values(|l: &str| l@), "PG"@, BLUE_CHIP_DOZEN_C@);
    } else if i == 32 {
        assert("MCD"@.len() != "Growth Dozen A"@.len());
        assert("MCD"@.len() != "Value Dozen B"@.len());
        assert("MCD"@.len() != "Blue Chip Dozen C"@.len());
        lemma_group_dozen_labels(8);
        lemma_push_contains(group_labels(8).map_values(|l: &str| l@), "MCD"@, GROWTH_DOZEN_A@);
        lemma_push_contains(group_labels(8).map_values(|l: &str| l@), "MCD"@, VALUE_DOZEN_B@);
        lemma_push_contains(group_labels(8).map_values(|l: &str| l@), "MCD"@, BLUE_CHIP_DOZEN_C@);
    } else if i == 33 {
        assert("NKE"@.len() != "Growth Dozen A"@.len());
        assert("NKE"@.len() != "Value Dozen B"@.len());
        assert("NKE"@.len() != "Blue Chip Dozen C"@.len());
        lemma_group_dozen_labels(8);
        lemma_push_contains(group_labels(8).map_values(|l: &str| l@), "NKE"@, GROWTH_DOZEN_A@);
        lemma_push_contains(group_labels(8).map_values(|l: &str| l@), "NKE"@, VALUE_DOZEN_B@);
        lemma_push_contains(group_labels(8).map_values(|l: &str| l@), "NKE"@, BLUE_CHIP_DOZEN_C@);
    } else if i == 34 {
        assert("COST"@.len() != "Growth Dozen A"@.len());
        assert("COST"@.len() != "Value Dozen B"@.len());
        assert("COST"@.len() != "Blue Chip Dozen C"@.len());
        lemma_group_dozen_labels(8);
        lemma_push_contains(group_labels(8).map_values(|l: &str| l@), "COST"@, GROWTH_DOZEN_A@);
        lemma_push_contains(group_labels(8).map_values(|l: &str| l@), "COST"@, VALUE_DOZEN_B@);
        lemma_push_contains(group_labels(8).map_values(|l: &str| l@), "COST"@, BLUE_CHIP_DOZEN_C@);
    } else if i == 35 {
        assert("F"@.len() != "Growth Dozen A"@.len());
        assert("F"@.len() != "Value Dozen B"@.len());
        assert("F"@.len() != "Blue Chip Dozen C"@.len());
        lemma_group_dozen_labels(9);
        lemma_push_contains(group_labels(9).map_values(|l: &str| l@), "F"@, GROWTH_DOZEN_A@);
        lemma_push_contains(group_labels(9).map_values(|l: &str| l@), "F"@, VALUE_DOZEN_B@);
        lemma_push_contains(group_labels(9).map_values(|l: &str| l@), "F"@, BLUE_CHIP_DOZEN_C@);
    } else if i == 36 {
        assert("GM"@.len() != "Growth Dozen A"@.len());
        assert("GM"@.len() != "Value Dozen B"@.len());
        assert("GM"@.len() != "Blue Chip Dozen C"@.len());
        lemma_group_dozen_labels(9);
        lemma_push_contains(group_labels(9).map_values(|l: &str| l@), "GM"@, GROWTH_DOZEN_A@);
        lemma_push_contains(group_labels(9).map_values(|l: &str| l@), "GM"@, VALUE_DOZEN_B@);
        lemma_push_contains(group_labels(9).map_values(|l: &str| l@), "GM"@, BLUE_CHIP_DOZEN_C@);
    }
}

/// No two definitions share a ticker.
#[verifier::spinoff_prover]
#[verifier::rlimit(100)]
pub proof fn lemma_definition_tickers_distinct()
    ensures
        forall|i: int, j: int|
            0 <= i < j < 37 ==> (#[trigger] pocket_definitions()[i]).ticker
                != (#[trigger] pocket_definitions()[j]).ticker,
{
    reveal_strlit("2222.SR");
    reveal_strlit("AAPL");
    reveal_strlit("AMZN");
    reveal_strlit("BRK-A");
    reveal_strlit("COP");
    reveal_strlit("COST");
    reveal_strlit("CSCO");
    reveal_strlit("CVX");
    reveal_strlit("F");
    reveal_strlit("GE");
    reveal_strlit("GM");
    reveal_strlit("GOOGL");
    reveal_strlit("HD");
    reveal_strlit("IBM");
    reveal_strlit("INTC");
    reveal_strlit("JNJ");
    reveal_strlit("JPM");
    reveal_strlit("KO");
    reveal_strlit("MA");
    reveal_strlit("MCD");
    reveal_strlit("META");
    reveal_strlit("MSFT");
    reveal_strlit("NKE");
    reveal_strlit("NVDA");
    reveal_strlit("PEP");
    reveal_strlit("PFE");
    reveal_strlit("PG");
    reveal_strlit("PTR");
    reveal_strlit("RCSN");
    reveal_strlit("T");
    reveal_strlit("TSLA");
    reveal_strlit("UNH");
    reveal_strlit("V");
    reveal_strlit("VZ");
    reveal_strlit("WFC");
    reveal_strlit("WMT");
    reveal_strlit("XOM");
    assert forall|i: int, j: int| 0 <= i < j < 37 implies (#[trigger] pocket_definitions()[i]).ticker
        != (#[trigger] pocket_definitions()[j]).ticker by {
        let a = pocket_definitions()[i].ticker;
        let b = pocket_definitions()[j].ticker;
        if a == b {
            assert(a.len() == b.len());
            assert(a[0] == b[0]);
            assert(a[1] == b[1]);
        }
    }
}

/// Every definition has a display name, and the dozen labels sit on known
/// places: the growth dozen label on places 1 to 7, the value dozen label on
/// places 8 to 12, the blue chip dozen label on places 13 to 17; no
/// definition carries two of them.
pub proof fn lemma_definition_labels()
    ensures
        pocket_definitions().len() == 37,
        forall|i: int|
            0 <= i < 37 ==> (#[trigger] pocket_definitions()[i]).display_name.len() > 0 && (has_label(
                pocket_definitions()[i],
                GROWTH_DOZEN_A@,
            ) <==> 1 <= i <= 7) && (has_label(pocket_definitions()[i], VALUE_DOZEN_B@) <==> 8 <= i
                <= 12) && (has_label(pocket_definitions()[i], BLUE_CHIP_DOZEN_C@) <==> 13 <= i <= 17),
{
    assert forall|i: int| 0 <= i < 37 implies (#[trigger] pocket_definitions()[i]).display_name.len()
        > 0 && (has_label(pocket_definitions()[i], GROWTH_DOZEN_A@) <==> 1 <= i <= 7) && (has_label(
        pocket_definitions()[i],
        VALUE_DOZEN_B@,
    ) <==> 8 <= i <= 12) && (has_label(pocket_definitions()[i], BLUE_CHIP_DOZEN_C@) <==> 13 <= i
        <= 17) by {
        lemma_definition_at(i);
    }
}

/// The definition at place `i` of `pocket_definitions`.
fn definition_at(i: usize) -> (r: Pocket)
    requires
        i < 37,
    ensures
        r@ == pocket_definitions()[i as int],
{
    match i {
        0 => pocket_definition("RCSN", "Recession", labels_of_group(0)),
        1 => pocket_definition("AAPL", "Apple Inc.", labels_of_group(1)),
        2 => pocket_definition("MSFT", "Microsoft Corp.", labels_of_group(1)),
        3 => pocket_definition("GOOGL", "Alphabet Inc.", labels_of_group(1)),
        4 => pocket_definition("AMZN", "Amazon.com Inc.", labels_of_group(1)),
        5 => pocket_definition("NVDA", "NVIDIA Corp.", labels_of_group(1)),
        6 => pocket_definition("META", "Meta Platforms Inc.", labels_of_group(1)),
        7 => pocket_definition("TSLA", "Tesla Inc.", labels_of_group(1)),
        8 => pocket_definition("XOM", "Exxon Mobil Corp.", labels_of_group(2)),
        9 => pocket_definition("CVX", "Chevron Corp.", labels_of_group(2)),
        10 => pocket_definition("COP", "ConocoPhillips", labels_of_group(2)),
        11 => pocket_definition("2222.SR", "Saudi Aramco", labels_of_group(2)),
        12 => pocket_definition("PTR", "PetroChina Co.", labels_of_group(2)),
        13 => pocket_definition("JPM", "JPMorgan Chase & Co.", labels_of_group(3)),
        14 => pocket_definition("BRK-A", "Berkshire Hathaway Inc.", labels_of_group(3)),
        15 => pocket_definition("WFC", "Wells Fargo & Co.", labels_of_group(3)),
        16 => pocket_definition("V", "Visa Inc.", labels_of_group(3)),
        17 => pocket_definition("MA", "Mastercard Inc.", labels_of_group(3)),
        18 => pocket_definition("PFE", "Pfizer Inc.", labels_of_group(4)),
        19 => pocket_definition("JNJ", "Johnson & Johnson", labels_of_group(4)),
        20 => pocket_definition("UNH", "UnitedHealth Group", labels_of_group(4)),
        21 => pocket_definition("GE", "General Electric", labels_of_group(5)),
        22 => pocket_definition("IBM", "IBM Corp.", labels_of_group(6)),
        23 => pocket_definition("INTC", "Intel Corp.", labels_of_group(6)),
        24 => pocket_definition("CSCO", "Cisco Systems", labels_of_group(6)),
        25 => pocket_definition("T", "AT&T Inc.", labels_of_group(7)),
        26 => pocket_definition("VZ", "Verizon Communications", labels_of_group(7)),
        27 => pocket_definition("HD", "Home Depot", labels_of_group(8)),
        28 => pocket_definition("WMT", "Walmart Inc.", labels_of_group(8)),
        29 => pocket_definition("KO", "Coca-Cola Co.", labels_of_group(8)),
        30 => pocket_definition("PEP", "PepsiCo Inc.", labels_of_group(8)),
        31 => pocket_definition("PG", "Procter & Gamble", labels_of_group(8)),
        32 => pocket_definition("MCD", "McDonald's Corp.", labels_of_group(8)),
        33 => pocket_definition("NKE", "Nike Inc.", labels_of_group(8)),
        34 => pocket_definition("COST", "Costco Wholesale", labels_of_group(8)),
        35 => pocket_definition("F", "Ford Motor Co.", labels_of_group(9)),
        _ => pocket_definition("GM", "General Motors Co.", labels_of_group(9)),
    }
}

impl View for Wheel {
    type V = Seq<PocketView>;

    closed spec fn view(&self) -> Seq<PocketView> {
        self.pockets@.map_values(|p: Pocket| p@)
    }
}

/// Relies on rand's `thread_rng` and `Rng::gen_range`: an index drawn
/// uniformly from `0..n`, a range that is not empty.
#[verifier::external_body]
fn random_index(n: usize) -> (r: usize)
    requires
        0 < n,
    ensures
        r < n,
{
    rand::thread_rng().gen_range(0..n)
}

impl Wheel {
    /// The pockets stand in wheel order, and `place_of_number` finds each
    /// number's pocket.
    pub closed spec fn wf(&self) -> bool {
        &&& is_standard_wheel(self@)
        &&& self.place_of_number@.len() == 37
        &&& forall|n: int|
            0 <= n < 37 ==> #[trigger] self.place_of_number@[n] as int == wheel_position()[n]
    }

    /// Builds the wheel: the definitions take their places in wheel order, and
    /// each pocket gets the number of its place and that number's colour.
    pub fn new() -> (r: Self)
        ensures
            r.wf(),
            is_standard_wheel(r@),
    {
        let order: Vec<u8> = vec![
            0, 32, 15, 19, 4, 21, 2, 25, 17, 34, 6, 27, 13, 36, 11, 30, 8, 23, 10, 5, 24, 16, 33, 1,
            20, 14, 31, 9, 22, 18, 29, 7, 28, 12, 35, 3, 26,
        ];
        assert(order@ =~= wheel_order());
        proof {
            lemma_wheel_order_is_permutation();
        }
        let defs = Self::get_pocket_definitions();
        assert(pocket_definitions().len() == 37);
        assert(defs@.len() == 37);
        assert forall|j: int| 0 <= j < 37 implies (#[trigger] defs@[j])@ == pocket_definitions()[j] by {
            assert(defs@.map_values(|p: Pocket| p@)[j] == defs@[j]@);
        }
        let mut pockets: Vec<Pocket> = Vec::new();
        let mut place_of_number: Vec<usize> = vec![0usize; 37];
        let mut i: usize = 0;
        while i < 37
            invariant
                i <= 37,
                order@ == wheel_order(),
                defs@.len() == 37,
                forall|j: int| 0 <= j < 37 ==> (#[trigger] defs@[j])@ == pocket_definitions()[j],
                pockets@.len() == i,
                forall|j: int|
                    0 <= j < i ==> (#[trigger] pockets@[j])@.ticker == pocket_definitions()[j].ticker
                        && pockets@[j]@.display_name == pocket_definitions()[j].display_name
                        && pockets@[j]@.categories == pocket_definitions()[j].categories,
                place_of_number@.len() == 37,
                forall|j: int|
                    0 <= j < i ==> (#[trigger] pockets@[j]).number == wheel_order()[j]
                        && pockets@[j].color == color_of(pockets@[j].number as int),
                forall|j: int| 0 <= j < i ==> place_of_number@[#[trigger] wheel_order()[j] as int] == j,
            decreases 37 - i,
        {
            let number = order[i];
            let mut pocket = defs[i].clone();
            pocket.number = number;
            pocket.color = if number == 0 {
                Color::Green
            } else if red_number(number) {
                Color::Red
            } else {
                Color::Black
            };
            pockets.push(pocket);
            place_of_number.set(number as usize, i);
            i = i + 1;
        }
        let r = Wheel { pockets, place_of_number };
        assert forall|n: int| 0 <= n < 37 implies #[trigger] r.place_of_number@[n] as int
            == wheel_position()[n] by {
            assert(wheel_order()[wheel_position()[n]] == n);
        }
        r
    }

    /// The pocket that carries `number`, if the wheel has one.
    pub fn get_pocket(&self, number: u8) -> (r: Option<&Pocket>)
        requires
            self.wf(),
        ensures
            r is Some <==> number < 37,
            r matches Some(p) ==> p@ == self@[wheel_position()[number as int]] && p@.number
                == number,
    {
        if number < 37 {
            proof {
                lemma_wheel_order_is_permutation();
            }
            let place = self.place_of_number[number as usize];
            Some(&self.pockets[place])
        } else {
            None
        }
    }

    /// Spins the wheel: one of its pockets, drawn at random.
    pub fn spin(&self) -> (r: Pocket)
        requires
            self.wf(),
        ensures
            exists|i: int| 0 <= i < 37 && r@ == #[trigger] self@[i],
    {
        let i = random_index(self.pockets.len());
        let r = self.pockets[i].clone();
        assert(r@ == self@[i as int]);
        r
    }

    /// All the pockets, in wheel order.
    pub fn get_all_pockets(&self) -> (r: &[Pocket])
        requires
            self.wf(),
        ensures
            r@.map_values(|p: Pocket| p@) == self@,
            is_standard_wheel(self@),
    {
        self.pockets.as_slice()
    }

    /// Whether some pocket of the wheel has the ticker `ticker`.
    pub fn has_ticker(&self, ticker: &String) -> (r: bool)
        ensures
            r == ticker_on_wheel(self@, ticker@),
    {
        let mut i: usize = 0;
        while i < self.pockets.len()
            invariant
                i <= self.pockets@.len(),
                forall|j: int| 0 <= j < i ==> (#[trigger] self@[j]).ticker != ticker@,
            decreases self.pockets@.len() - i,
        {
            if self.pockets[i].ticker == *ticker {
                assert(self@[i as int].ticker == ticker@);
                return true;
            }
            i = i + 1;
        }
        false
    }

    /// Whether some pocket of the wheel carries the label `label`.
    pub fn has_category(&self, label: &String) -> (r: bool)
        ensures
            r == label_on_wheel(self@, label@),
    {
        let mut i: usize = 0;
        while i < self.pockets.len()
            invariant
                i <= self.pockets@.len(),
                forall|j: int| 0 <= j < i ==> !has_label(#[trigger] self@[j], label@),
            decreases self.pockets@.len() - i,
        {
            if pocket_has_label(&self.pockets[i], label) {
                assert(has_label(self@[i as int], label@));
                return true;
            }
            i = i + 1;
        }
        false
    }

    /// The 37 pocket definitions, in the order in which they take their
    /// places round the wheel; the first one is the zero pocket. Numbers and
    /// colours are placeholders until `Wheel::new` assigns them.
    pub fn get_pocket_definitions() -> (r: Vec<Pocket>)
        ensures
            r@.map_values(|p: Pocket| p@) == pocket_definitions(),
    {
        let mut defs: Vec<Pocket> = Vec::new();
        let mut i: usize = 0;
        while i < 37
            invariant
                i <= 37,
                defs@.len() == i,
                forall|j: int| 0 <= j < i ==> (#[trigger] defs@[j])@ == pocket_definitions()[j],
            decreases 37 - i,
        {
            defs.push(definition_at(i));
            i = i + 1;
        }
        assert(defs@.map_values(|p: Pocket| p@) =~= pocket_definitions());
        defs
    }
}

} // verus!
