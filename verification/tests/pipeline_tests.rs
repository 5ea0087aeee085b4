use render_window::pipeline::{topology_for_name, IndexFormat, Inputs, Topology};
use render_window::text::str_eq;

#[test]
fn topology_line_list() {
    assert_eq!(topology_for_name("line-list"), Topology::LineList);
}

#[test]
fn topology_triangle_list() {
    assert_eq!(topology_for_name("triangle-list"), Topology::TriangleList);
}

#[test]
fn topology_triangle_strip() {
    assert_eq!(topology_for_name("triangle-strip"), Topology::TriangleStrip);
}

#[test]
fn topology_line_strip() {
    assert_eq!(topology_for_name("line-strip"), Topology::LineStrip);
}

#[test]
fn topology_unknown_defaults_to_point_list() {
    assert_eq!(topology_for_name("hexagon"), Topology::PointList);
    assert_eq!(topology_for_name(""), Topology::PointList);
    assert_eq!(topology_for_name("LINE-LIST"), Topology::PointList);
}

#[test]
fn select_absent_defaults_to_point_list() {
    let inp = Inputs::select(&None);
    assert_eq!(inp.topology, Topology::PointList);
    assert_eq!(inp.strip_index_format, None);
}

#[test]
fn select_recognised_names() {
    let inp = Inputs::select(&Some(String::from("triangle-strip")));
    assert_eq!(inp.topology, Topology::TriangleStrip);
    let inp = Inputs::select(&Some(String::from("line-list")));
    assert_eq!(inp.topology, Topology::LineList);
}

#[test]
fn strip_topologies_carry_uint32_format() {
    let strip = Inputs::select(&Some(String::from("triangle-strip")));
    assert_eq!(strip.strip_index_format, Some(IndexFormat::Uint32));
    let strip = Inputs::select(&Some(String::from("line-strip")));
    assert_eq!(strip.strip_index_format, Some(IndexFormat::Uint32));
}

#[test]
fn list_topologies_carry_no_format() {
    let list = Inputs::select(&Some(String::from("line-list")));
    assert_eq!(list.strip_index_format, None);
    let list = Inputs::select(&Some(String::from("triangle-list")));
    assert_eq!(list.strip_index_format, None);
    let other = Inputs::select(&Some(String::from("wedge")));
    assert_eq!(other.strip_index_format, None);
}

#[test]
fn for_topology_matches_strips() {
    assert_eq!(
        Inputs::for_topology(Topology::LineStrip).strip_index_format,
        Some(IndexFormat::Uint32)
    );
    assert_eq!(Inputs::for_topology(Topology::PointList).strip_index_format, None);
}

#[test]
fn str_eq_on_equal_strings() {
    assert!(str_eq("triangle-strip", "triangle-strip"));
    assert!(str_eq("", ""));
}

#[test]
fn str_eq_on_different_strings() {
    assert!(!str_eq("line-list", "line-strip"));
    assert!(!str_eq("line", "line-list"));
    assert!(!str_eq("a", ""));
}

#[test]
fn str_eq_on_non_ascii_strings() {
    assert!(str_eq("naïve", "naïve"));
    assert!(!str_eq("naïve", "naive"));
}
