use trustify::cpe::{
    component_filter, cpe_filter, ingest_step, part_filter, ColumnFilter, Component, Cpe, CpeFilter, CpeIngestStep,
    CpeType,
};

fn eq(v: &str) -> ColumnFilter<String> {
    ColumnFilter::Equals(v.to_string())
}

#[test]
fn parts_map_to_their_stored_form() {
    assert_eq!(part_filter(CpeType::Any), eq("*"));
    assert_eq!(part_filter(CpeType::Hardware), eq("h"));
    assert_eq!(part_filter(CpeType::OperatingSystem), eq("o"));
    assert_eq!(part_filter(CpeType::Application), eq("a"));
    assert_eq!(part_filter(CpeType::Empty), ColumnFilter::IsNull);
}

#[test]
fn components_map_to_their_stored_form() {
    assert_eq!(component_filter(&Component::Any), eq("*"));
    assert_eq!(component_filter(&Component::NotApplicable), ColumnFilter::IsNull);
    assert_eq!(component_filter(&Component::Value("openssl".to_string())), eq("openssl"));
}

#[test]
fn cpe_filter_covers_every_column() {
    let cpe = Cpe {
        part: CpeType::Application,
        vendor: Component::Value("redhat".to_string()),
        product: Component::Value("enterprise_linux".to_string()),
        version: Component::Value("9".to_string()),
        update: Component::Any,
        edition: Component::NotApplicable,
    };
    assert_eq!(
        cpe_filter(&cpe),
        CpeFilter {
            part: eq("a"),
            vendor: eq("redhat"),
            product: eq("enterprise_linux"),
            version: eq("9"),
            update: eq("*"),
            edition: ColumnFilter::IsNull,
        }
    );
}

#[test]
fn ingest_reuses_a_found_row_and_inserts_otherwise() {
    assert_eq!(ingest_step(Some(7)), CpeIngestStep::Existing(7));
    assert_eq!(ingest_step::<i32>(None), CpeIngestStep::Insert);
}
