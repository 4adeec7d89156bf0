use hyperparts::predicate::closed_intervals_overlap;
use hyperparts::{
    import_eda_authoring_bundle, AspectKind, AssertionValue, AutorouterOutputRecord,
    CircuitJsonSourceRecord, ConnectionDecision, EdaAuthoringBundle, EdaAuthoringImportResult,
    EdaExactField, EdaFabricationReadiness, EdaFootprintString, EdaHandoffStatus, EdaIntakeStatus,
    EdaModelStatus, EdaPackageMetadata, EdaPackagePin, EdaRouteStatus, ElectricalPolarity,
    ExactValue, FabricationOutputRecord, GeneratedModelReference, GeometryStatus, ImportIssue,
    InterfaceKind, PartAssertion, PartFamily, PartGraph, PartId, PartVariant, PartsError,
    PinFunction, ProcessKind, SourceRef, Terminal, TerminalId, VariantId, VoltageEnvelope,
    VoltageRange,
};

fn source() -> SourceRef {
    SourceRef::new("fixture", "contracts").unwrap()
}

fn exact(value: i64) -> ExactValue {
    ExactValue::from_int(value)
}

fn text(value: &str) -> ExactValue {
    ExactValue::parse(value).unwrap()
}

fn empty_bundle(name: &str) -> EdaAuthoringBundle {
    EdaAuthoringBundle {
        source: source(),
        part: PartId::new("eda:board").unwrap(),
        variant: VariantId::new("A").unwrap(),
        display_name: name.into(),
        circuit_records: Vec::new(),
        footprint: None,
        model_references: Vec::new(),
        package: None,
        routes: Vec::new(),
        fabrication: Vec::new(),
    }
}

fn record(id: &str, value: Option<&str>) -> CircuitJsonSourceRecord {
    CircuitJsonSourceRecord {
        id: id.into(),
        kind: "capacitor".into(),
        reference: None,
        nets: vec!["A".into(), "B".into()],
        exact_fields: vec![EdaExactField {
            field: "capacitance".into(),
            value: value.map(|v| v.to_string()),
            unit: Some("nF".into()),
        }],
    }
}

fn issue_fields(issues: &[ImportIssue]) -> Vec<(String, String)> {
    issues
        .iter()
        .map(|issue| (issue.field.clone(), issue.detail.clone()))
        .collect()
}

fn single_record(value: &str) -> EdaAuthoringImportResult {
    let mut bundle = empty_bundle("Board");
    bundle.circuit_records = vec![record("C1", Some(value))];
    import_eda_authoring_bundle(bundle)
}

fn power(id: &str, voltage: Option<(i64, i64)>) -> Terminal {
    Terminal::new(
        TerminalId::new(id).unwrap(),
        id,
        ElectricalPolarity::Power,
        voltage.map(|(lo, hi)| VoltageEnvelope::new(exact(lo), exact(hi)).unwrap()),
    )
}

fn graph_with(terminals: Vec<Terminal>) -> PartGraph {
    let mut variant = PartVariant::new(VariantId::new("A").unwrap(), None);
    for terminal in terminals {
        variant.add_terminal(terminal);
    }
    let mut family = PartFamily::new(PartId::new("board").unwrap(), "Board");
    family.insert_variant(variant);
    let mut graph = PartGraph::default();
    graph.insert_family(family);
    graph
}

fn decide(graph: &PartGraph, left: &str, right: &str) -> ConnectionDecision {
    let part = PartId::new("board").unwrap();
    let variant = VariantId::new("A").unwrap();
    let l = TerminalId::new(left).unwrap();
    let r = TerminalId::new(right).unwrap();
    graph
        .safe_connection((&part, &variant, &l), (&part, &variant, &r))
        .unwrap()
        .value
}

#[test]
fn exact_values_parse_rationals_and_compare_by_value() {
    assert_eq!(text("1/2"), text("0.5"));
    assert_ne!(text("1/3"), text("0.3333"));
    assert_eq!(exact(-42).text(), "-42");
    assert_eq!(exact(0).text(), "0");
    assert!(ExactValue::parse("pi").is_none());
    assert!(ExactValue::parse("1/0").is_none());
    assert_eq!(text("3/4").text(), "3/4");
}

#[test]
fn identifiers_and_sources_reject_empty_text() {
    assert_eq!(PartId::new(""), Err(PartsError::EmptyIdentifier));
    assert_eq!(PartId::new(" ").unwrap().as_str(), " ");
    assert_eq!(SourceRef::new("", "x"), Err(PartsError::EmptySource));
    assert_eq!(SourceRef::new("x", ""), Err(PartsError::EmptySource));
}

#[test]
fn ranges_validate_endpoint_order() {
    assert_eq!(
        VoltageEnvelope::new(exact(2), exact(1)),
        Err(PartsError::InvalidVoltageEnvelope)
    );
    assert!(VoltageEnvelope::new(text("1/2"), text("0.5")).is_ok());
    assert_eq!(
        AssertionValue::interval(text("0.75"), text("1/2")),
        Err(PartsError::InvalidAssertionRange)
    );
    assert!(VoltageRange::new(exact(-1), exact(1)).is_ok());
    assert_eq!(
        VoltageRange::new(exact(1), exact(-1)),
        Err(PartsError::InvalidVoltageEnvelope)
    );
}

#[test]
fn overlap_is_symmetric_and_disjointness_is_certified() {
    let a = VoltageRange::new(exact(0), exact(3)).unwrap();
    let b = VoltageRange::new(exact(3), exact(5)).unwrap();
    let c = VoltageRange::new(exact(4), exact(9)).unwrap();
    assert_eq!(a.overlaps(&b), Some(true));
    assert_eq!(b.overlaps(&a), Some(true));
    assert_eq!(a.overlaps(&c), Some(false));
    assert_eq!(c.overlaps(&a), Some(false));
    assert_eq!(
        closed_intervals_overlap(&exact(0), &exact(1), &exact(1), &exact(2)),
        Some(true)
    );
    assert_eq!(
        closed_intervals_overlap(&exact(1), &exact(2), &exact(0), &exact(1)),
        Some(true)
    );
    assert_eq!(
        closed_intervals_overlap(&text("1/3"), &exact(1), &exact(0), &text("0.3")),
        Some(false)
    );
}

#[test]
fn connection_decisions_are_symmetric_and_conservative() {
    let ground = Terminal::new(
        TerminalId::new("gnd").unwrap(),
        "GND",
        ElectricalPolarity::Ground,
        None,
    );
    let mystery = Terminal::new(
        TerminalId::new("nc").unwrap(),
        "NC",
        ElectricalPolarity::Unknown,
        None,
    );
    let graph = graph_with(vec![
        power("5v", Some((5, 5))),
        power("5v-b", Some((4, 6))),
        power("3v3", Some((3, 3))),
        power("bare", None),
        ground,
        mystery,
    ]);
    assert_eq!(decide(&graph, "5v", "gnd"), ConnectionDecision::Unsafe);
    assert_eq!(decide(&graph, "gnd", "5v"), ConnectionDecision::Unsafe);
    assert_eq!(decide(&graph, "5v", "5v-b"), ConnectionDecision::Safe);
    assert_eq!(decide(&graph, "5v-b", "5v"), ConnectionDecision::Safe);
    assert_eq!(decide(&graph, "3v3", "5v"), ConnectionDecision::Unsafe);
    assert_eq!(decide(&graph, "5v", "3v3"), ConnectionDecision::Unsafe);
    assert_eq!(decide(&graph, "bare", "5v"), ConnectionDecision::Unknown);
    assert_eq!(decide(&graph, "nc", "gnd"), ConnectionDecision::Unknown);
    assert_eq!(decide(&graph, "gnd", "gnd"), ConnectionDecision::Safe);

    let part = PartId::new("board").unwrap();
    let other = PartId::new("other").unwrap();
    let variant = VariantId::new("A").unwrap();
    let missing_variant = VariantId::new("B").unwrap();
    let gnd = TerminalId::new("gnd").unwrap();
    let missing = TerminalId::new("nope").unwrap();
    assert_eq!(
        graph.safe_connection((&other, &variant, &gnd), (&part, &variant, &gnd)),
        Err(PartsError::MissingPart)
    );
    assert_eq!(
        graph.safe_connection((&part, &missing_variant, &gnd), (&part, &variant, &gnd)),
        Err(PartsError::MissingVariant)
    );
    assert_eq!(
        graph.safe_connection((&part, &variant, &gnd), (&part, &variant, &missing)),
        Err(PartsError::MissingTerminal)
    );
    let report = graph
        .safe_connection((&part, &variant, &gnd), (&part, &variant, &gnd))
        .unwrap();
    assert_eq!(
        report.evidence.facts,
        vec!["left polarity=Ground, right polarity=Ground".to_string()]
    );
}

#[test]
fn inserting_a_family_twice_keeps_the_latest() {
    let mut graph = PartGraph::default();
    let id = PartId::new("r").unwrap();
    graph.insert_family(PartFamily::new(id.clone(), "first"));
    graph.insert_family(PartFamily::new(PartId::new("a").unwrap(), "other"));
    graph.insert_family(PartFamily::new(id.clone(), "second"));
    assert_eq!(graph.family(&id).unwrap().name(), "second");
    assert!(graph.family(&PartId::new("z").unwrap()).is_none());

    let mut variant = PartVariant::new(VariantId::new("A").unwrap(), None);
    variant.add_terminal(power("vcc", None));
    variant.add_terminal(Terminal::new(
        TerminalId::new("vcc").unwrap(),
        "VCC2",
        ElectricalPolarity::Ground,
        None,
    ));
    let vcc = variant.terminal(&TerminalId::new("vcc").unwrap()).unwrap();
    assert_eq!(vcc.name(), "VCC2");
    assert_eq!(vcc.polarity(), ElectricalPolarity::Ground);
}

#[test]
fn clean_decimal_circuit_parameters_stay_exact() {
    for value in ["12.345", "0.125", "100/300", " 7 ", "-3.5"] {
        let result = single_record(value);
        assert_eq!(result.status, EdaIntakeStatus::Accepted, "{value}");
        let handoff = &result.circuit_handoffs[0];
        assert_eq!(handoff.status, EdaHandoffStatus::Exact);
        assert_eq!(handoff.exact_parameters[0].value.text(), value.trim());
        assert_eq!(handoff.exact_parameters[0].value, text(value.trim()));
        assert!(result.import_report.rejected_fields.is_empty());
        assert!(result.is_exact_ready());
        assert_eq!(
            issue_fields(&result.import_report.parsed_assertions),
            vec![
                (
                    "circuit/C1/capacitance".to_string(),
                    "numeric field parsed as exact Real".to_string()
                ),
                (
                    "circuit/C1".to_string(),
                    "circuit record accepted as hypercircuit residual-fact handoff".to_string()
                ),
            ]
        );
    }
}

#[test]
fn float_spellings_and_separators_are_refused() {
    for value in ["NaN", "inf", "INFINITY", "1_000"] {
        let result = single_record(value);
        assert_eq!(result.status, EdaIntakeStatus::NeedsReview);
        assert_eq!(
            issue_fields(&result.import_report.rejected_fields),
            vec![(
                "circuit/C1/capacitance".to_string(),
                "numeric field is not an exact decimal/rational token".to_string()
            )]
        );
        assert_eq!(result.circuit_handoffs[0].status, EdaHandoffStatus::NeedsReview);
        assert!(result.circuit_handoffs[0].exact_parameters.is_empty());
    }
    let result = single_record("twelve");
    assert_eq!(
        issue_fields(&result.import_report.rejected_fields),
        vec![(
            "circuit/C1/capacitance".to_string(),
            "numeric field could not be parsed as exact Real".to_string()
        )]
    );
}

#[test]
fn blank_and_missing_exact_fields_are_counted_unknowns() {
    let mut bundle = empty_bundle("Board");
    bundle.circuit_records = vec![record("C1", Some("   ")), record("C2", None)];
    let result = import_eda_authoring_bundle(bundle);
    assert_eq!(result.status, EdaIntakeStatus::AcceptedWithUnknowns);
    assert_eq!(result.import_report.unknown_field_count, 2);
    assert_eq!(
        issue_fields(&result.import_report.review_requirements),
        vec![
            (
                "circuit/C1/capacitance".to_string(),
                "exact field was present but empty".to_string()
            ),
            (
                "circuit/C2/capacitance".to_string(),
                "exact field omitted by source".to_string()
            ),
        ]
    );
    assert_eq!(
        result.circuit_handoffs[0].unknowns,
        vec!["circuit/C1/capacitance omitted".to_string()]
    );
    assert_eq!(result.circuit_handoffs[1].status, EdaHandoffStatus::Unknown);
    let variant = result
        .graph
        .family(&PartId::new("eda:board").unwrap())
        .unwrap()
        .variant(&VariantId::new("A").unwrap())
        .unwrap();
    assert!(variant.assertions().iter().any(|a| matches!(
        a,
        PartAssertion::General(g)
            if g.key == "eda.circuit.C2.capacitance" && g.value == AssertionValue::Unknown
    )));
}

#[test]
fn refused_records_are_reported_not_dropped() {
    let mut bundle = empty_bundle("Board");
    let mut no_kind = record("C2", Some("1"));
    no_kind.kind = " ".into();
    bundle.circuit_records = vec![record(" ", Some("1")), no_kind];
    bundle.model_references = vec![GeneratedModelReference {
        handle: "".into(),
        owner: "gen".into(),
        format: "step".into(),
        uri: None,
        units: None,
        status: EdaModelStatus::Exact,
    }];
    bundle.routes = vec![AutorouterOutputRecord {
        route_id: "r1".into(),
        net: "".into(),
        geometry_handle: None,
        units: None,
        exact_grid: None,
        status: EdaRouteStatus::Exact,
    }];
    bundle.fabrication = vec![FabricationOutputRecord {
        artifact_id: "f1".into(),
        format: " ".into(),
        process: ProcessKind::Pcb,
        readiness: EdaFabricationReadiness::Ready,
        notes: Vec::new(),
    }];
    let result = import_eda_authoring_bundle(bundle);
    assert_eq!(result.status, EdaIntakeStatus::Rejected);
    assert!(result.circuit_handoffs.is_empty());
    assert!(result.geometry_handoffs.is_empty());
    assert!(result.route_handoffs.is_empty());
    assert!(result.drc_handoffs.is_empty());
    assert_eq!(
        issue_fields(&result.import_report.rejected_fields),
        vec![
            (
                "circuit/<empty>/id".to_string(),
                "circuit source record id is empty".to_string()
            ),
            (
                "circuit/C2/kind".to_string(),
                "circuit source record kind is empty".to_string()
            ),
            ("models/<empty>/handle".to_string(), "model handle is empty".to_string()),
            ("routes/r1/net".to_string(), "route net is empty".to_string()),
            (
                "fabrication/f1/format".to_string(),
                "fabrication artifact format is empty".to_string()
            ),
        ]
    );
}

#[test]
fn empty_bundle_is_rejected_and_names_the_family_after_the_part() {
    let result = import_eda_authoring_bundle(empty_bundle(" "));
    assert_eq!(result.status, EdaIntakeStatus::Rejected);
    let family = result.graph.family(&PartId::new("eda:board").unwrap()).unwrap();
    assert_eq!(family.name(), "eda:board");
    assert_eq!(
        issue_fields(&result.import_report.review_requirements),
        vec![(
            "display_name".to_string(),
            "bundle display name was empty; part id used as family name".to_string()
        )]
    );
    assert_eq!(result.graph.import_reports().len(), 1);
    assert_eq!(result.import_report.imported_family_count, 1);
    assert_eq!(
        result.import_report.warnings,
        vec!["EDA authoring intake retained exact strings, unknowns, and handoff owners".to_string()]
    );
}

#[test]
fn footprint_expressions_become_aspects_and_parameters() {
    let mut bundle = empty_bundle("Board");
    bundle.footprint = Some(EdaFootprintString {
        handle: "fp:soic".into(),
        expression: " soic : pins=8 , pitch=1.27mm, ,leadform=gull wing".into(),
    });
    let result = import_eda_authoring_bundle(bundle);
    assert_eq!(result.status, EdaIntakeStatus::Accepted);
    let variant = result
        .graph
        .family(&PartId::new("eda:board").unwrap())
        .unwrap()
        .variant(&VariantId::new("A").unwrap())
        .unwrap();
    assert_eq!(variant.aspects().len(), 1);
    assert_eq!(variant.aspects()[0].handle, "fp:soic");
    assert_eq!(variant.aspects()[0].kind, AspectKind::Package);
    let generals: Vec<(String, AssertionValue, Option<String>)> = variant
        .assertions()
        .iter()
        .filter_map(|a| match a {
            PartAssertion::General(g) => Some((g.key.clone(), g.value.clone(), g.unit.clone())),
            _ => None,
        })
        .collect();
    assert_eq!(
        generals,
        vec![
            (
                "eda.footprint.fp:soic.family".to_string(),
                AssertionValue::Text("soic".into()),
                None
            ),
            (
                "eda.footprint.fp:soic.pins".to_string(),
                AssertionValue::exact_scalar(exact(8)),
                None
            ),
            (
                "eda.footprint.fp:soic.pitch".to_string(),
                AssertionValue::exact_scalar(text("1.27")),
                Some("mm".into())
            ),
            (
                "eda.footprint.fp:soic.leadform".to_string(),
                AssertionValue::Text("gull wing".into()),
                None
            ),
        ]
    );
    assert!(matches!(&variant.assertions()[0], PartAssertion::ShapeHandle(_)));
}

#[test]
fn malformed_footprints_are_rejected_with_their_part() {
    let cases = [
        (":pins=8", "footprint/family", "footprint family is empty"),
        (
            "qfn:pins",
            "footprint/pins",
            "footprint parameter must be key=value",
        ),
        (
            "qfn: =8",
            "footprint/ =8",
            "footprint parameter key and value must be non-empty",
        ),
        (
            "qfn:pitch=1.2.3mm",
            "footprint/pitch",
            "numeric field could not be parsed as exact Real",
        ),
    ];
    for (expression, field, detail) in cases {
        let mut bundle = empty_bundle("Board");
        bundle.footprint = Some(EdaFootprintString {
            handle: "fp".into(),
            expression: expression.into(),
        });
        let result = import_eda_authoring_bundle(bundle);
        assert_eq!(
            issue_fields(&result.import_report.rejected_fields),
            vec![(field.to_string(), detail.to_string())],
            "{expression}"
        );
        assert_eq!(result.status, EdaIntakeStatus::Rejected);
        let variant = result
            .graph
            .family(&PartId::new("eda:board").unwrap())
            .unwrap()
            .variant(&VariantId::new("A").unwrap())
            .unwrap();
        assert!(variant.aspects().is_empty());
        assert!(variant.assertions().is_empty());
    }
}

#[test]
fn package_pins_become_terminals_and_an_interface() {
    let mut bundle = empty_bundle("Board");
    bundle.package = Some(EdaPackageMetadata {
        name: "SOT-23".into(),
        handle: "pkg:sot23".into(),
        terminal_count: Some(5),
        pins: vec![
            EdaPackagePin {
                terminal: "1".into(),
                name: " ".into(),
                function: PinFunction::Differential("p".into()),
                voltage_min: Some("0".into()),
                voltage_max: None,
            },
            EdaPackagePin {
                terminal: "2".into(),
                name: "GND".into(),
                function: PinFunction::Shield,
                voltage_min: Some("5".into()),
                voltage_max: Some("1".into()),
            },
            EdaPackagePin {
                terminal: "3".into(),
                name: "VIN".into(),
                function: PinFunction::Power,
                voltage_min: Some("1/2".into()),
                voltage_max: Some("5.5".into()),
            },
        ],
    });
    let result = import_eda_authoring_bundle(bundle);
    assert_eq!(result.status, EdaIntakeStatus::NeedsReview);
    assert_eq!(
        issue_fields(&result.import_report.review_requirements),
        vec![
            (
                "package/terminal_count".to_string(),
                "declared terminal count 5 does not match 3 pin records".to_string()
            ),
            (
                "package/pins/1".to_string(),
                "pin supplied only one voltage bound".to_string()
            ),
        ]
    );
    assert_eq!(
        issue_fields(&result.import_report.rejected_fields),
        vec![(
            "package/pins/2".to_string(),
            "pin voltage range has min greater than max".to_string()
        )]
    );
    let variant = result
        .graph
        .family(&PartId::new("eda:board").unwrap())
        .unwrap()
        .variant(&VariantId::new("A").unwrap())
        .unwrap();
    let one = variant.terminal(&TerminalId::new("1").unwrap()).unwrap();
    assert_eq!(one.name(), "1");
    assert_eq!(one.polarity(), ElectricalPolarity::Signal);
    assert!(one.voltage().is_none());
    let two = variant.terminal(&TerminalId::new("2").unwrap()).unwrap();
    assert_eq!(two.polarity(), ElectricalPolarity::Passive);
    assert!(two.voltage().is_none());
    let three = variant.terminal(&TerminalId::new("3").unwrap()).unwrap();
    let envelope = three.voltage().unwrap();
    assert_eq!(envelope.min.text(), "1/2");
    assert_eq!(envelope.max.text(), "5.5");
    assert_eq!(variant.interfaces().len(), 1);
    assert_eq!(variant.interfaces()[0].name(), "pkg:sot23:electrical");
    assert_eq!(variant.interfaces()[0].kind(), &InterfaceKind::Electrical);
    assert_eq!(variant.interfaces()[0].terminals().len(), 3);
    assert!(variant.assertions().iter().any(|a| matches!(
        a,
        PartAssertion::General(g)
            if g.key == "eda.package.electrical_report"
                && g.value == AssertionValue::Text("SOT-23:pkg:sot23:Unknown".into())
    )));
    assert!(variant.assertions().iter().any(|a| matches!(
        a,
        PartAssertion::General(g)
            if g.key == "eda.package.terminal_count"
                && g.value == AssertionValue::exact_scalar(exact(5))
    )));
}

#[test]
fn routes_and_fabrication_keep_their_statuses() {
    let mut bundle = empty_bundle("Board");
    bundle.routes = vec![
        AutorouterOutputRecord {
            route_id: "r1".into(),
            net: "N".into(),
            geometry_handle: Some("g1".into()),
            units: Some("mm".into()),
            exact_grid: Some("0.1".into()),
            status: EdaRouteStatus::Certified,
        },
        AutorouterOutputRecord {
            route_id: "r2".into(),
            net: "N".into(),
            geometry_handle: Some(" ".into()),
            units: None,
            exact_grid: Some("".into()),
            status: EdaRouteStatus::Lossy,
        },
    ];
    bundle.fabrication = vec![
        FabricationOutputRecord {
            artifact_id: "f1".into(),
            format: "gerber".into(),
            process: ProcessKind::Pcb,
            readiness: EdaFabricationReadiness::NeedsReview,
            notes: Vec::new(),
        },
        FabricationOutputRecord {
            artifact_id: "f2".into(),
            format: "bom".into(),
            process: ProcessKind::Inspection,
            readiness: EdaFabricationReadiness::Unknown,
            notes: Vec::new(),
        },
    ];
    let result = import_eda_authoring_bundle(bundle);
    assert_eq!(result.route_handoffs[0].status, EdaHandoffStatus::Certified);
    assert_eq!(result.route_handoffs[0].exact_grid.as_ref().unwrap().text(), "0.1");
    assert_eq!(result.route_handoffs[0].geometry.as_ref().unwrap().owner, "hyperpath");
    assert_eq!(result.route_handoffs[1].status, EdaHandoffStatus::NeedsReview);
    assert!(result.route_handoffs[1].geometry.is_none());
    assert_eq!(
        result.route_handoffs[1].unknowns,
        vec![
            "routes/r2/geometry_handle omitted".to_string(),
            "routes/r2/exact_grid omitted".to_string()
        ]
    );
    assert_eq!(result.drc_handoffs[0].status, EdaHandoffStatus::NeedsReview);
    assert_eq!(result.drc_handoffs[1].status, EdaHandoffStatus::Unknown);
    assert_eq!(
        result.drc_handoffs[1].unknowns,
        vec!["fabrication/f2/readiness unknown".to_string()]
    );
    assert_eq!(
        issue_fields(&result.import_report.lossy_conversions),
        vec![(
            "routes/r2".to_string(),
            "autorouter output is a lossy sampled route".to_string()
        )]
    );
    assert_eq!(
        issue_fields(&result.import_report.unresolved_references),
        vec![(
            "routes/r2".to_string(),
            "autorouter output omitted route geometry handle".to_string()
        )]
    );
    assert_eq!(result.import_report.unknown_field_count, 2);
    assert_eq!(result.status, EdaIntakeStatus::NeedsReview);
    assert!(!result.is_exact_ready());
}

#[test]
fn models_map_status_and_default_owner() {
    let mut bundle = empty_bundle("Board");
    bundle.model_references = vec![
        GeneratedModelReference {
            handle: "m1".into(),
            owner: " ".into(),
            format: "step".into(),
            uri: None,
            units: Some("mm".into()),
            status: EdaModelStatus::Certified,
        },
        GeneratedModelReference {
            handle: "m2".into(),
            owner: "viewer".into(),
            format: "glb".into(),
            uri: None,
            units: None,
            status: EdaModelStatus::Missing,
        },
    ];
    let result = import_eda_authoring_bundle(bundle);
    assert_eq!(result.geometry_handoffs.len(), 2);
    assert_eq!(result.geometry_handoffs[0].status, GeometryStatus::Certified);
    assert_eq!(
        result.geometry_handoffs[0].geometry.as_ref().unwrap().owner,
        "generated-model"
    );
    assert_eq!(result.geometry_handoffs[1].status, GeometryStatus::Missing);
    assert!(result.geometry_handoffs[1].geometry.is_none());
    assert_eq!(
        result.geometry_handoffs[1].evidence.facts,
        vec!["model m2 imported as glb".to_string()]
    );
    assert_eq!(
        issue_fields(&result.import_report.unresolved_references),
        vec![(
            "models/m2".to_string(),
            "source referenced a model without a usable handle".to_string()
        )]
    );
    assert_eq!(result.status, EdaIntakeStatus::NeedsReview);
}

fn capability(tool: &str, input: &str, output: &str) -> hyperparts::Capability {
    hyperparts::Capability {
        tool: hyperparts::ToolPart {
            handle: tool.into(),
            part: None,
            name: tool.into(),
        },
        process: hyperparts::Process {
            handle: format!("process:{tool}"),
            kind: ProcessKind::Subtractive,
            name: "cut".into(),
        },
        inputs: vec![hyperparts::CapabilityInput {
            role: "stock".into(),
            handle: input.into(),
            quantity: AssertionValue::Unknown,
        }],
        outputs: vec![hyperparts::CapabilityOutput {
            role: "feature".into(),
            handle: output.into(),
            quantity: AssertionValue::exact_scalar(exact(1)),
        }],
        envelope: hyperparts::CapabilityEnvelope {
            materials: Vec::new(),
            conditions: Vec::new(),
            safety_limits: Vec::new(),
            status: hyperparts::CapabilityStatus::Conditional,
        },
        tolerances: Vec::new(),
        fixtures: Vec::new(),
        consumables: Vec::new(),
        calibration: None,
        evidence: hyperparts::PartQueryEvidence::empty(),
        status: hyperparts::CapabilityStatus::Conditional,
    }
}

#[test]
fn capability_existence_agrees_with_listing() {
    let mut graph = PartGraph::default();
    graph.add_capability(capability("saw", "blank", "slot"));
    graph.add_capability(capability("drill", "slot", "hole"));
    graph.add_capability(capability("saw", "sheet", "strip"));
    for target in ["blank", "slot", "hole", "strip", "sheet", "nothing"] {
        assert_eq!(
            graph.has_capability_target(target),
            !graph.capabilities_for_target(target).is_empty(),
            "{target}"
        );
    }
    assert_eq!(graph.capabilities_for_target("slot").len(), 2);
    assert!(!graph.has_capability_target("nothing"));
    let saws = graph.capabilities_for_tool("saw");
    assert_eq!(saws.len(), 2);
    assert_eq!(saws[0].outputs[0].handle, "slot");
    assert_eq!(saws[1].outputs[0].handle, "strip");
}

fn ready_report() -> hyperparts::PhysicsHandoffReport {
    let handle = hyperparts::PhysicalPropertyHandle::new(
        "hyperphysics",
        "material:fr4/k",
        "conductivity",
        None,
        hyperparts::PhysicalFactStatus::Exact,
    )
    .unwrap();
    hyperparts::PhysicsHandoffReport {
        part: PartId::new("pcb").unwrap(),
        handles: vec![handle.clone()],
        requirements: Vec::new(),
        environments: Vec::new(),
        thermal_paths: vec![hyperparts::ThermalPath {
            from: "top".into(),
            to: "bottom".into(),
            property: Some(handle),
            value: AssertionValue::exact_scalar(exact(3)),
            status: hyperparts::PhysicalFactStatus::Certified,
        }],
        mechanical_load_paths: Vec::new(),
        mass_property_needs: Vec::new(),
        status: hyperparts::PhysicalFactStatus::Certified,
        evidence: hyperparts::PartQueryEvidence::empty(),
        unknowns: Vec::new(),
    }
}

#[test]
fn certified_readiness_covers_every_carried_fact() {
    let report = ready_report();
    assert!(report.is_certified_ready());

    let mut unknown_path = ready_report();
    unknown_path.thermal_paths[0].status = hyperparts::PhysicalFactStatus::Unknown;
    assert!(!unknown_path.is_certified_ready());

    let mut lossy_handle = ready_report();
    lossy_handle.thermal_paths[0].property.as_mut().unwrap().status =
        hyperparts::PhysicalFactStatus::Lossy;
    assert!(!lossy_handle.is_certified_ready());

    let mut unknown_need = ready_report();
    unknown_need.mass_property_needs.push(hyperparts::MassPropertyNeed {
        target: "pcb/body".into(),
        material: None,
        outputs: vec!["mass".into()],
        status: hyperparts::PhysicalFactStatus::Unknown,
    });
    assert!(!unknown_need.is_certified_ready());

    let mut lossy_load = ready_report();
    lossy_load.mechanical_load_paths.push(hyperparts::MechanicalLoadPath {
        from: "a".into(),
        to: "b".into(),
        direction: "normal".into(),
        load: AssertionValue::Unknown,
        status: hyperparts::PhysicalFactStatus::Lossy,
    });
    assert!(!lossy_load.is_certified_ready());
}

#[test]
fn review_only_entries_outrank_unknowns() {
    let mut bundle = empty_bundle(" ");
    bundle.circuit_records = vec![record("C1", None)];
    let result = import_eda_authoring_bundle(bundle);
    assert_eq!(result.import_report.unknown_field_count, 1);
    assert_eq!(result.import_report.review_requirements.len(), 2);
    assert_eq!(result.status, EdaIntakeStatus::NeedsReview);

    let mut bundle = empty_bundle("Board");
    bundle.circuit_records = vec![record("C1", None)];
    let result = import_eda_authoring_bundle(bundle);
    assert_eq!(result.status, EdaIntakeStatus::AcceptedWithUnknowns);
}

#[test]
fn empty_text_is_not_an_exact_value_and_parsed_values_compare() {
    assert!(ExactValue::parse("").is_none());
    assert_eq!(text("7/2"), text("7/2"));
    assert!(VoltageEnvelope::new(text("3"), text("5")).is_ok());
    assert!(VoltageEnvelope::new(text("5"), text("5")).is_ok());
    assert!(AssertionValue::interval(text("-1/3"), text("0.5")).is_ok());
}

#[test]
fn blank_voltage_bound_leaves_no_range() {
    let mut bundle = empty_bundle("Board");
    bundle.package = Some(EdaPackageMetadata {
        name: "P".into(),
        handle: "pkg".into(),
        terminal_count: Some(1),
        pins: vec![EdaPackagePin {
            terminal: "t".into(),
            name: "T".into(),
            function: PinFunction::Power,
            voltage_min: Some("".into()),
            voltage_max: Some("5".into()),
        }],
    });
    let result = import_eda_authoring_bundle(bundle);
    let variant = result
        .graph
        .family(&PartId::new("eda:board").unwrap())
        .unwrap()
        .variant(&VariantId::new("A").unwrap())
        .unwrap();
    assert!(variant.terminal(&TerminalId::new("t").unwrap()).unwrap().voltage().is_none());
    assert_eq!(
        issue_fields(&result.import_report.rejected_fields),
        vec![(
            "package/pins/t/voltage_min".to_string(),
            "numeric field could not be parsed as exact Real".to_string()
        )]
    );
}

#[test]
fn query_candidates_share_one_rank_and_extra_constraints_only_narrow() {
    let mut graph = PartGraph::default();
    for (id, name) in [("p:b", "Bench B"), ("p:a", "Bench A"), ("q:c", "Other")] {
        let mut family = PartFamily::new(PartId::new(id).unwrap(), name);
        let mut variant = PartVariant::new(VariantId::new("A").unwrap(), None);
        if id != "p:b" {
            variant.add_interface(hyperparts::Interface::new(
                "i2c",
                InterfaceKind::Electrical,
                Vec::new(),
            ));
        }
        family.insert_variant(variant);
        graph.insert_family(family);
    }
    let wide = graph.query_parts(&hyperparts::PartQuery {
        constraints: vec![hyperparts::PartConstraint::FamilyNameContains("Bench".into())],
    });
    let ids: Vec<&str> = wide.candidates.iter().map(|c| c.value.as_str()).collect();
    assert_eq!(ids, vec!["p:a", "p:b"]);
    assert!(wide.candidates.iter().all(|c| c.rank == 10));
    assert!(wide.unknowns.is_empty());
    let narrow = graph.query_parts(&hyperparts::PartQuery {
        constraints: vec![
            hyperparts::PartConstraint::FamilyNameContains("Bench".into()),
            hyperparts::PartConstraint::HasInterface,
        ],
    });
    let ids: Vec<&str> = narrow.candidates.iter().map(|c| c.value.as_str()).collect();
    assert_eq!(ids, vec!["p:a"]);
    assert_eq!(narrow.candidates[0].rank, 15);
    let none = graph.query_parts(&hyperparts::PartQuery {
        constraints: vec![hyperparts::PartConstraint::PartIdContains("zzz".into())],
    });
    assert!(none.candidates.is_empty());
    assert_eq!(none.unknowns[0].field, "part-query");
}
