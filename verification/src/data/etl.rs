//! Extraction helpers: where the census sample comes from and the projection that
//! shortens its wide column names.

use vstd::prelude::*;
use crate::text::owned;

verus! {

/// The public endpoint of the ONS micro census teaching sample (England and Wales, 2021).
pub const RAW_URL: &'static str = "https://www.ons.gov.uk/file?uri=/peoplepopulationandcommunity/populationandmigration/populationestimates/datasets/publicmicrodatateachingsampleenglandandwalescensus2021/current/upload-publicmicrodatateachingsample.csv";

/// One column of a projection: the source column and the name it takes.
pub struct ColumnSelection {
    pub source: String,
    pub alias: String,
}

pub open spec fn selection_view(c: ColumnSelection) -> (Seq<char>, Seq<char>) {
    (c.source@, c.alias@)
}

/// The projection of the census sample onto the abbreviated names used downstream.
pub open spec fn spec_census_columns() -> Seq<(Seq<char>, Seq<char>)> {
    seq![
        ("resident_id_m"@, "id"@),
        ("approx_social_grade"@, "social"@),
        ("country_of_birth_3a"@, "birth"@),
        ("economic_activity_status_10m"@, "econ"@),
        ("ethnic_group_tb_6a"@, "ethnic"@),
        ("health_in_general"@, "health"@),
        ("hh_families_type_6a"@, "fam_type"@),
        ("hours_per_week_worked"@, "hours_worked"@),
        ("in_full_time_education"@, "education"@),
        ("industry_10a"@, "industry"@),
        ("iol22cd"@, "london"@),
        ("legal_partnership_status_6a"@, "mar_stat"@),
        ("occupation_10a"@, "occupation"@),
        ("region"@, "region"@),
        ("religion_tb"@, "religion"@),
        ("residence_type"@, "residence_type"@),
        ("resident_age_7d"@, "age_group"@),
        ("sex"@, "sex"@),
        ("usual_short_student"@, "keep_type"@),
    ]
}

fn select(source: &str, alias: &str) -> (r: ColumnSelection)
    ensures
        selection_view(r) == (source@, alias@),
{
    ColumnSelection { source: owned(source), alias: owned(alias) }
}

/// The columns kept from the census sample, each with its abbreviated name, in order.
pub fn shorten_census_column_names() -> (r: Vec<ColumnSelection>)
    ensures
        r@.map_values(|c: ColumnSelection| selection_view(c)) == spec_census_columns(),
{
    let r = vec![
        select("resident_id_m", "id"),
        select("approx_social_grade", "social"),
        select("country_of_birth_3a", "birth"),
        select("economic_activity_status_10m", "econ"),
        select("ethnic_group_tb_6a", "ethnic"),
        select("health_in_general", "health"),
        select("hh_families_type_6a", "fam_type"),
        select("hours_per_week_worked", "hours_worked"),
        select("in_full_time_education", "education"),
        select("industry_10a", "industry"),
        select("iol22cd", "london"),
        select("legal_partnership_status_6a", "mar_stat"),
        select("occupation_10a", "occupation"),
        select("region", "region"),
        select("religion_tb", "religion"),
        select("residence_type", "residence_type"),
        select("resident_age_7d", "age_group"),
        select("sex", "sex"),
        select("usual_short_student", "keep_type"),
    ];
    assert(r@.map_values(|c: ColumnSelection| selection_view(c)) =~= spec_census_columns());
    r
}

/// The shortened names are all different, so the projection yields a frame whose
/// columns can be told apart by name.
pub proof fn lemma_census_aliases_distinct()
    ensures
        spec_census_columns().map_values(|c: (Seq<char>, Seq<char>)| c.1).no_duplicates(),
{
    reveal_strlit("id");
    reveal_strlit("social");
    reveal_strlit("birth");
    reveal_strlit("econ");
    reveal_strlit("ethnic");
    reveal_strlit("health");
    reveal_strlit("fam_type");
    reveal_strlit("hours_worked");
    reveal_strlit("education");
    reveal_strlit("industry");
    reveal_strlit("london");
    reveal_strlit("mar_stat");
    reveal_strlit("occupation");
    reveal_strlit("region");
    reveal_strlit("religion");
    reveal_strlit("residence_type");
    reveal_strlit("age_group");
    reveal_strlit("sex");
    reveal_strlit("keep_type");
    let a = spec_census_columns().map_values(|c: (Seq<char>, Seq<char>)| c.1);
    assert forall|i: int, j: int| 0 <= i < a.len() && 0 <= j < a.len() && i != j implies a[i] != a[j] by {
        if a[i] == a[j] {
            assert(a[i].len() == a[j].len());
            assert(a[i][0] == a[j][0]);
            assert(a[i][a[i].len() - 1] == a[j][a[j].len() - 1]);
        }
    }
}

/// The law of the projection: each census column is renamed to its documented
/// abbreviation, the nineteen in this order.
pub proof fn lemma_census_column_pairs()
    ensures
        spec_census_columns().len() == 19,
        spec_census_columns()[0] == ("resident_id_m"@, "id"@),
        spec_census_columns()[1] == ("approx_social_grade"@, "social"@),
        spec_census_columns()[2] == ("country_of_birth_3a"@, "birth"@),
        spec_census_columns()[3] == ("economic_activity_status_10m"@, "econ"@),
        spec_census_columns()[4] == ("ethnic_group_tb_6a"@, "ethnic"@),
        spec_census_columns()[5] == ("health_in_general"@, "health"@),
        spec_census_columns()[6] == ("hh_families_type_6a"@, "fam_type"@),
        spec_census_columns()[7] == ("hours_per_week_worked"@, "hours_worked"@),
        spec_census_columns()[8] == ("in_full_time_education"@, "education"@),
        spec_census_columns()[9] == ("industry_10a"@, "industry"@),
        spec_census_columns()[10] == ("iol22cd"@, "london"@),
        spec_census_columns()[11] == ("legal_partnership_status_6a"@, "mar_stat"@),
        spec_census_columns()[12] == ("occupation_10a"@, "occupation"@),
        spec_census_columns()[13] == ("region"@, "region"@),
        spec_census_columns()[14] == ("religion_tb"@, "religion"@),
        spec_census_columns()[15] == ("residence_type"@, "residence_type"@),
        spec_census_columns()[16] == ("resident_age_7d"@, "age_group"@),
        spec_census_columns()[17] == ("sex"@, "sex"@),
        spec_census_columns()[18] == ("usual_short_student"@, "keep_type"@),
{
}

} // verus!
