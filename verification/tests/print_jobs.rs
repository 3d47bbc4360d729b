use graphviz_dot_builder::graph::graph::GraphVizDiGraph;
use graphviz_dot_builder::item::node::node::GraphVizNode;
use graphviz_dot_builder::traits::{DotBuildable, DotTranslatable, GraphVizOutputFormat};

#[test]
fn output_format_names() {
    assert_eq!(GraphVizOutputFormat::svg.to_string(), "svg");
    assert_eq!(GraphVizOutputFormat::png.to_string(), "png");
}

#[test]
fn output_format_arguments() {
    assert_eq!(GraphVizOutputFormat::svg.command_format_argument(), "-Tsvg:cairo");
    assert_eq!(GraphVizOutputFormat::png.command_format_argument(), "-Tpng");
}

#[test]
fn print_job_for_svg() {
    let mut graph = GraphVizDiGraph::new(vec![]);
    graph.add_node(GraphVizNode::new("A".to_string(), vec![]));
    let folder = vec!["out".to_string(), "graphs".to_string()];
    let job = graph.print_job(&folder, "first", &GraphVizOutputFormat::svg);
    assert_eq!(job.dot_file_path, vec!["out", "graphs", "first.dot"]);
    assert_eq!(job.image_file_path, vec!["out", "graphs", "first.svg"]);
    assert_eq!(job.renderer, "dot");
    assert_eq!(job.command_format_argument, "-Tsvg:cairo");
    assert_eq!(job.command_output_argument, "-o");
    assert_eq!(job.dot_file_content, graph.to_dot_string());
    assert_eq!(job.dot_file_content, "digraph G {\ncompound=true;\n\tA;\n}");
}

#[test]
fn print_job_for_png_in_the_current_folder() {
    let graph = GraphVizDiGraph::new(vec![]);
    let job = graph.print_job(&[], "g", &GraphVizOutputFormat::png);
    assert_eq!(job.dot_file_path, vec!["g.dot"]);
    assert_eq!(job.image_file_path, vec!["g.png"]);
    assert_eq!(job.renderer, "dot");
    assert_eq!(job.command_format_argument, "-Tpng");
    assert_eq!(job.command_output_argument, "-o");
}
