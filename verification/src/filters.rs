//! Search filters of the listing endpoints.
//!
//! A filter that is absent restricts nothing. A keyword is looked for
//! anywhere in a text column; a pair of dates selects the timestamps from
//! the first instant of the start date to the last millisecond of the end
//! date. The same plan serves the page and the total count of a listing.

use crate::temporal::{Date, DateTime};
use vstd::prelude::*;

verus! {

/// The filters of the inventory search.
#[derive(Debug, PartialEq, Eq)]
pub struct QueryFilters {
    pub start_date: Option<Date>,
    pub end_date: Option<Date>,
    pub currency: Option<String>,
    pub store_name: Option<String>,
    pub store_alias: Option<String>,
    pub product_name: Option<String>,
    pub product_alias: Option<String>,
    pub product_brand: Option<String>,
}

impl Default for QueryFilters {
    fn default() -> (filters: Self)
        ensures
            filters.start_date is None,
            filters.end_date is None,
            filters.currency is None,
            filters.store_name is None,
            filters.store_alias is None,
            filters.product_name is None,
            filters.product_alias is None,
            filters.product_brand is None,
    {
        Self {
            start_date: None,
            end_date: None,
            currency: None,
            store_name: None,
            store_alias: None,
            product_name: None,
            product_alias: None,
            product_brand: None,
        }
    }
}

/// The filter of an autocompletion.
#[derive(Debug, PartialEq, Eq)]
pub struct KeywordFilters {
    pub keyword: Option<String>,
}

impl Default for KeywordFilters {
    fn default() -> (filters: Self)
        ensures
            filters.keyword is None,
    {
        Self { keyword: None }
    }
}

/// A text column that a search can restrict.
#[derive(Clone, Copy, Debug, PartialEq, Eq, Structural)]
pub enum TextColumn {
    ProductName,
    ProductBrand,
    ProductAlias,
    CurrencyName,
    StoreName,
    StoreAlias,
}

/// How a text column is compared with the value of a filter.
#[derive(Clone, Copy, Debug, PartialEq, Eq, Structural)]
pub enum TextTest {
    /// The column matches the value as a pattern, case-sensitively.
    Like,
    /// The column equals the value.
    Equals,
}

/// One restriction of a text column.
#[derive(Debug, PartialEq, Eq)]
pub struct TextFilter {
    pub column: TextColumn,
    pub test: TextTest,
    pub value: String,
}

/// A closed interval of timestamps.
#[derive(Clone, Copy, Debug, PartialEq, Eq, Structural)]
pub struct DateRange {
    pub start: DateTime,
    pub end: DateTime,
}

/// The restrictions of a search: every one of them must hold of a row.
#[derive(Debug, PartialEq, Eq)]
pub struct SearchPlan {
    pub texts: Vec<TextFilter>,
    pub dates: Option<DateRange>,
}

/// The pattern that matches every text which contains `keyword`.
pub open spec fn like_pattern(keyword: Seq<char>) -> Seq<char> {
    seq!['%'] + keyword + seq!['%']
}

/// A text restriction as a mathematical value.
pub type TextRule = (TextColumn, TextTest, Seq<char>);

impl TextFilter {
    /// The restriction as a mathematical value.
    pub open spec fn rule(self) -> TextRule {
        (self.column, self.test, self.value@)
    }
}

/// What each text restriction of a plan is as a mathematical value.
pub open spec fn rule_of() -> spec_fn(TextFilter) -> TextRule {
    |filter: TextFilter| filter.rule()
}

/// The restriction that a filter puts on a column: none where the filter
/// is absent.
pub open spec fn text_rules(column: TextColumn, test: TextTest, value: Option<String>) -> Seq<
    TextRule,
> {
    match value {
        Some(text) => seq![
            (
                column,
                test,
                if test is Like {
                    like_pattern(text@)
                } else {
                    text@
                },
            ),
        ],
        None => Seq::empty(),
    }
}

/// The text restrictions of the inventory search, in the order in which
/// they are applied: keywords in the product's name, brand and alias, the
/// exact name of the currency, keywords in the store's name and alias.
pub open spec fn planned_texts(filters: QueryFilters) -> Seq<TextRule> {
    text_rules(TextColumn::ProductName, TextTest::Like, filters.product_name) + text_rules(
        TextColumn::ProductBrand,
        TextTest::Like,
        filters.product_brand,
    ) + text_rules(TextColumn::ProductAlias, TextTest::Like, filters.product_alias) + text_rules(
        TextColumn::CurrencyName,
        TextTest::Equals,
        filters.currency,
    ) + text_rules(TextColumn::StoreName, TextTest::Like, filters.store_name) + text_rules(
        TextColumn::StoreAlias,
        TextTest::Like,
        filters.store_alias,
    )
}

/// The range of transaction dates of the inventory search: from the first
/// instant of the start date to the last millisecond of the end date, where
/// both dates are given; no restriction otherwise.
pub open spec fn planned_dates(filters: QueryFilters) -> Option<DateRange> {
    match (filters.start_date, filters.end_date) {
        (Some(start), Some(end)) => Some(
            DateRange {
                start: DateTime::spec_start_of_day(start),
                end: DateTime::spec_end_of_day(end),
            },
        ),
        _ => None,
    }
}

/// The pattern that matches every text which contains `keyword`: the
/// keyword between two percent signs.
pub fn contains_pattern(keyword: &String) -> (pattern: String)
    ensures
        pattern@ == like_pattern(keyword@),
{
    proof {
        reveal_strlit("%");
    }
    let pattern = String::from_str("%").concat(keyword.as_str()).concat("%");
    assert("%"@ =~= seq!['%']);
    pattern
}

fn push_text(texts: &mut Vec<TextFilter>, column: TextColumn, test: TextTest, value: &Option<String>)
    ensures
        final(texts)@.map_values(rule_of()) == old(texts)@.map_values(rule_of()) + text_rules(
            column,
            test,
            *value,
        ),
{
    let ghost before = texts@;
    match value {
        Some(text) => {
            let value = match test {
                TextTest::Like => contains_pattern(text),
                TextTest::Equals => text.clone(),
            };
            texts.push(TextFilter { column, test, value });
            assert(texts@.map_values(rule_of()) =~= before.map_values(rule_of()) + text_rules(
                column,
                test,
                Some(*text),
            ));
        },
        None => {
            assert(texts@.map_values(rule_of()) =~= before.map_values(rule_of()) + text_rules(
                column,
                test,
                None,
            ));
        },
    }
}

impl DateRange {
    /// Whether the range holds `instant`; both of its ends belong to it.
    pub fn contains(&self, instant: &DateTime) -> (answer: bool)
        ensures
            answer == instant.within(self.start, self.end),
    {
        instant.is_within(&self.start, &self.end)
    }
}

impl KeywordFilters {
    /// The restriction of an autocompletion on `column`: the column must
    /// contain the keyword. None where no keyword is given.
    pub fn plan(&self, column: TextColumn) -> (filter: Option<TextFilter>)
        ensures
            match self.keyword {
                Some(keyword) => filter is Some && filter->0.rule() == (
                    column,
                    TextTest::Like,
                    like_pattern(keyword@),
                ),
                None => filter is None,
            },
    {
        match &self.keyword {
            Some(keyword) => Some(
                TextFilter { column, test: TextTest::Like, value: contains_pattern(keyword) },
            ),
            None => None,
        }
    }
}

/// The search over inventory lines with their product, receipt, store and
/// currency.
pub struct CustomizedInventoryService {}

impl CustomizedInventoryService {
    pub fn new() -> (service: Self) {
        Self {  }
    }

    /// The restrictions that `query_filters` asks for.
    pub fn search_plan(&self, query_filters: &QueryFilters) -> (plan: SearchPlan)
        ensures
            plan.texts@.map_values(rule_of()) == planned_texts(*query_filters),
            plan.dates == planned_dates(*query_filters),
    {
        let mut texts: Vec<TextFilter> = Vec::new();
        assert(texts@.map_values(rule_of()) =~= Seq::<TextRule>::empty());
        push_text(&mut texts, TextColumn::ProductName, TextTest::Like, &query_filters.product_name);
        assert(texts@.map_values(rule_of()) =~= text_rules(
            TextColumn::ProductName,
            TextTest::Like,
            query_filters.product_name,
        ));
        push_text(
            &mut texts,
            TextColumn::ProductBrand,
            TextTest::Like,
            &query_filters.product_brand,
        );
        push_text(
            &mut texts,
            TextColumn::ProductAlias,
            TextTest::Like,
            &query_filters.product_alias,
        );
        let dates = match (query_filters.start_date, query_filters.end_date) {
            (Some(start), Some(end)) => Some(
                DateRange { start: DateTime::start_of_day(start), end: DateTime::end_of_day(end) },
            ),
            _ => None,
        };
        push_text(&mut texts, TextColumn::CurrencyName, TextTest::Equals, &query_filters.currency);
        push_text(&mut texts, TextColumn::StoreName, TextTest::Like, &query_filters.store_name);
        push_text(&mut texts, TextColumn::StoreAlias, TextTest::Like, &query_filters.store_alias);
        SearchPlan { texts, dates }
    }
}

} // verus!
