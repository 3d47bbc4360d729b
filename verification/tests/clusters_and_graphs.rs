use graphviz_dot_builder::colors::GraphvizColor;
use graphviz_dot_builder::edge::edge::GraphVizEdge;
use graphviz_dot_builder::edge::style::GraphvizEdgeStyleItem;
use graphviz_dot_builder::graph::graph::GraphVizDiGraph;
use graphviz_dot_builder::graph::style::{GraphvizGraphStyleItem, GvGraphRankDir};
use graphviz_dot_builder::item::cluster::GraphVizCluster;
use graphviz_dot_builder::item::item::GraphVizGraphItem;
use graphviz_dot_builder::item::node::node::GraphVizNode;
use graphviz_dot_builder::item::node::style::{GraphvizNodeStyleItem, GvNodeShape};
use graphviz_dot_builder::traits::{DotBuildable, DotTranslatable, RenameableWithPrefix};

fn node(id: &str) -> GraphVizNode {
    GraphVizNode::new(id.to_string(), vec![])
}

fn edge(origin: &str, target: &str) -> GraphVizEdge {
    GraphVizEdge::new(origin.to_string(), None, target.to_string(), None, vec![])
}

fn empty_cluster(id: &str) -> GraphVizCluster {
    GraphVizCluster::new(id.to_string(), vec![], vec![], vec![])
}

/// A cluster `outer` that holds a node, a cluster `mid` that holds a cluster
/// `inner` with a node, and edges that name nodes and clusters at each depth.
fn nested() -> GraphVizCluster {
    let mut inner = GraphVizCluster::new(
        "inner".to_string(),
        vec![GraphvizNodeStyleItem::Label("inner".to_string())],
        vec![],
        vec![],
    );
    inner.add_node(GraphVizNode::new(
        "deep".to_string(),
        vec![GraphvizNodeStyleItem::Shape(GvNodeShape::Point)],
    ));
    let mut mid = empty_cluster("mid");
    mid.add_cluster(inner);
    mid.add_edge(GraphVizEdge::new(
        "deep".to_string(),
        Some("inner".to_string()),
        "top".to_string(),
        None,
        vec![GraphvizEdgeStyleItem::Label("up".to_string())],
    ));
    let mut outer = GraphVizCluster::new(
        "outer".to_string(),
        vec![GraphvizNodeStyleItem::Color(GraphvizColor::gray)],
        vec![],
        vec![],
    );
    outer.add_node(node("top"));
    outer.add_cluster(mid);
    outer.add_edge(GraphVizEdge::new(
        "top".to_string(),
        None,
        "deep".to_string(),
        Some("mid".to_string()),
        vec![],
    ));
    outer
}

#[test]
fn cluster_new_keeps_its_arguments() {
    let cluster = GraphVizCluster::new(
        "c".to_string(),
        vec![GraphvizNodeStyleItem::PenWidth(2)],
        vec![Box::new(GraphVizGraphItem::Node(node("n")))],
        vec![edge("n", "n")],
    );
    assert_eq!(cluster.id, "c");
    assert_eq!(cluster.style, vec![GraphvizNodeStyleItem::PenWidth(2)]);
    assert_eq!(cluster.items, vec![Box::new(GraphVizGraphItem::Node(node("n")))]);
    assert_eq!(cluster.edges, vec![edge("n", "n")]);
}

#[test]
fn empty_cluster_is_head_and_brace() {
    assert_eq!(empty_cluster("c").to_dot_string(), "subgraph cluster_c {\n}");
}

#[test]
fn cluster_lists_style_then_items_then_edges() {
    let mut cluster = GraphVizCluster::new(
        "c".to_string(),
        vec![
            GraphvizNodeStyleItem::Label("a cluster".to_string()),
            GraphvizNodeStyleItem::Color(GraphvizColor::blue),
        ],
        vec![],
        vec![],
    );
    cluster.add_edge(edge("a", "b"));
    cluster.add_node(node("a"));
    cluster.add_edge(edge("b", "a"));
    cluster.add_node(node("b"));
    assert_eq!(
        cluster.to_dot_string(),
        "subgraph cluster_c {\nlabel=\"a cluster\";\ncolor=blue;\n\ta;\n\tb;\n\ta->b;\n\tb->a;\n}"
    );
}

#[test]
fn cluster_with_one_node_renamed() {
    let mut cluster = empty_cluster("x");
    cluster.add_node(node("n"));
    let renamed = cluster.rename_with_prefix("p_");
    assert_eq!(renamed.to_dot_string(), "subgraph cluster_p_x {\n\tp_n;\n}");
    assert_eq!(cluster.to_dot_string(), "subgraph cluster_x {\n\tn;\n}");
}

#[test]
fn nested_cluster_text() {
    assert_eq!(
        nested().to_dot_string(),
        "subgraph cluster_outer {\ncolor=gray;\n\ttop;\n\tsubgraph cluster_mid {\n\tsubgraph \
         cluster_inner {\nlabel=\"inner\";\n\tdeep [shape=point];\n}\n\tdeep->top \
         [label=\"up\",ltail=cluster_inner];\n}\n\ttop->deep [lhead=cluster_mid];\n}"
    );
}

#[test]
fn rename_reaches_every_depth() {
    let renamed = nested().rename_with_prefix("g_");
    assert_eq!(
        renamed.to_dot_string(),
        "subgraph cluster_g_outer {\ncolor=gray;\n\tg_top;\n\tsubgraph cluster_g_mid {\n\tsubgraph \
         cluster_g_inner {\nlabel=\"inner\";\n\tg_deep [shape=point];\n}\n\tg_deep->g_top \
         [label=\"up\",ltail=cluster_g_inner];\n}\n\tg_top->g_deep [lhead=cluster_g_mid];\n}"
    );
}

#[test]
fn rename_prefixes_every_identifier_once() {
    let renamed = nested().rename_with_prefix("g_");
    assert_eq!(renamed.id, "g_outer");
    let GraphVizGraphItem::Node(top) = &*renamed.items[0] else {
        panic!("the first item is a node");
    };
    assert_eq!(top.id, "g_top");
    let GraphVizGraphItem::Cluster(mid) = &*renamed.items[1] else {
        panic!("the second item is a cluster");
    };
    assert_eq!(mid.id, "g_mid");
    let GraphVizGraphItem::Cluster(inner) = &*mid.items[0] else {
        panic!("the cluster holds a cluster");
    };
    assert_eq!(inner.id, "g_inner");
    let GraphVizGraphItem::Node(deep) = &*inner.items[0] else {
        panic!("the innermost cluster holds a node");
    };
    assert_eq!(deep.id, "g_deep");
    assert_eq!(mid.edges[0].origin_node_id, "g_deep");
    assert_eq!(mid.edges[0].origin_cluster, Some("g_inner".to_string()));
    assert_eq!(mid.edges[0].target_node_id, "g_top");
    assert_eq!(mid.edges[0].target_cluster, None);
    assert_eq!(renamed.edges[0].origin_node_id, "g_top");
    assert_eq!(renamed.edges[0].target_node_id, "g_deep");
    assert_eq!(renamed.edges[0].target_cluster, Some("g_mid".to_string()));
}

#[test]
fn rename_keeps_counts_shape_and_styles() {
    let original = nested();
    let renamed = original.rename_with_prefix("g_");
    assert_eq!(renamed.style, original.style);
    assert_eq!(renamed.items.len(), original.items.len());
    assert_eq!(renamed.edges.len(), original.edges.len());
    let (GraphVizGraphItem::Cluster(mid), GraphVizGraphItem::Cluster(old_mid)) =
        (&*renamed.items[1], &*original.items[1])
    else {
        panic!("the second item is a cluster on both sides");
    };
    assert_eq!(mid.style, old_mid.style);
    assert_eq!(mid.items.len(), old_mid.items.len());
    assert_eq!(mid.edges.len(), old_mid.edges.len());
    assert_eq!(mid.edges[0].style, old_mid.edges[0].style);
    let (GraphVizGraphItem::Cluster(inner), GraphVizGraphItem::Cluster(old_inner)) =
        (&*mid.items[0], &*old_mid.items[0])
    else {
        panic!("the cluster holds a cluster on both sides");
    };
    assert_eq!(inner.style, old_inner.style);
    let (GraphVizGraphItem::Node(deep), GraphVizGraphItem::Node(old_deep)) =
        (&*inner.items[0], &*old_inner.items[0])
    else {
        panic!("the innermost cluster holds a node on both sides");
    };
    assert_eq!(deep.style, old_deep.style);
}

#[test]
fn rename_does_not_touch_the_original() {
    let original = nested();
    let before = original.to_dot_string();
    let _ = original.rename_with_prefix("g_");
    assert_eq!(original.to_dot_string(), before);
    assert_eq!(original, nested());
}

#[test]
fn rename_twice_puts_the_later_prefix_first() {
    let mut cluster = empty_cluster("x");
    cluster.add_node(node("n"));
    let twice = cluster.rename_with_prefix("a").rename_with_prefix("b");
    assert_eq!(twice.to_dot_string(), "subgraph cluster_bax {\n\tban;\n}");
}

#[test]
fn cluster_clone_is_equal() {
    assert_eq!(nested().clone(), nested());
}

#[test]
fn item_text_is_that_of_what_it_holds() {
    assert_eq!(GraphVizGraphItem::Node(node("n")).to_dot_string(), "n;");
    assert_eq!(
        GraphVizGraphItem::Cluster(empty_cluster("c")).to_dot_string(),
        "subgraph cluster_c {\n}"
    );
}

#[test]
fn item_rename_keeps_the_kind() {
    assert_eq!(
        GraphVizGraphItem::Node(node("n")).rename_with_prefix("p"),
        GraphVizGraphItem::Node(node("pn"))
    );
    assert_eq!(
        GraphVizGraphItem::Cluster(empty_cluster("c")).rename_with_prefix("p"),
        GraphVizGraphItem::Cluster(empty_cluster("pc"))
    );
}

#[test]
fn add_item_appends_without_looking() {
    let mut cluster = empty_cluster("c");
    cluster.add_item(GraphVizGraphItem::Node(node("n")));
    cluster.add_item(GraphVizGraphItem::Node(node("n")));
    cluster.add_edge(edge("nowhere", "n"));
    assert_eq!(cluster.items.len(), 2);
    assert_eq!(
        cluster.to_dot_string(),
        "subgraph cluster_c {\n\tn;\n\tn;\n\tnowhere->n;\n}"
    );
}

#[test]
fn empty_digraph_has_the_compound_line() {
    assert_eq!(GraphVizDiGraph::new(vec![]).to_dot_string(), "digraph G {\ncompound=true;\n}");
}

#[test]
fn digraph_with_two_nodes_and_an_edge() {
    let mut graph = GraphVizDiGraph::new(vec![]);
    graph.add_node(node("A"));
    graph.add_node(node("B"));
    graph.add_edge(edge("A", "B"));
    assert_eq!(graph.to_dot_string(), "digraph G {\ncompound=true;\n\tA;\n\tB;\n\tA->B;\n}");
}

#[test]
fn digraph_lists_style_then_items_then_edges() {
    let mut graph = GraphVizDiGraph::new(vec![
        GraphvizGraphStyleItem::Rankdir(GvGraphRankDir::LR),
        GraphvizGraphStyleItem::Concentrate(true),
    ]);
    graph.add_edge(edge("A", "in"));
    graph.add_node(node("A"));
    let mut cluster = empty_cluster("c");
    cluster.add_node(node("in"));
    graph.add_cluster(cluster);
    assert_eq!(
        graph.to_dot_string(),
        "digraph G {\ncompound=true;\nrankdir=lr;\nconcentrate=true;\n\tA;\n\tsubgraph cluster_c \
         {\n\tin;\n}\n\tA->in;\n}"
    );
}

#[test]
fn digraph_new_is_empty() {
    let graph = GraphVizDiGraph::new(vec![GraphvizGraphStyleItem::NodeSep(1, 0)]);
    assert_eq!(graph.style, vec![GraphvizGraphStyleItem::NodeSep(1, 0)]);
    assert!(graph.items.is_empty());
    assert!(graph.edges.is_empty());
}

#[test]
fn digraph_add_item_is_add_node_or_add_cluster() {
    let mut by_item = GraphVizDiGraph::new(vec![]);
    by_item.add_item(GraphVizGraphItem::Node(node("n")));
    by_item.add_item(GraphVizGraphItem::Cluster(empty_cluster("c")));
    let mut by_kind = GraphVizDiGraph::new(vec![]);
    by_kind.add_node(node("n"));
    by_kind.add_cluster(empty_cluster("c"));
    assert_eq!(by_item.items, by_kind.items);
    assert_eq!(by_item.to_dot_string(), by_kind.to_dot_string());
}

fn sample_graph() -> GraphVizDiGraph {
    let mut graph =
        GraphVizDiGraph::new(vec![GraphvizGraphStyleItem::Rankdir(GvGraphRankDir::TB)]);
    graph.add_node(GraphVizNode::new(
        "a".to_string(),
        vec![GraphvizNodeStyleItem::Label("a".to_string())],
    ));
    let mut cluster = empty_cluster("c");
    cluster.add_node(node("b"));
    graph.add_cluster(cluster);
    graph.add_edge(GraphVizEdge::new(
        "a".to_string(),
        None,
        "b".to_string(),
        Some("c".to_string()),
        vec![],
    ));
    graph
}

#[test]
fn as_cluster_without_prefix_keeps_items_and_edges() {
    let graph = sample_graph();
    let style = vec![GraphvizNodeStyleItem::Label("whole".to_string())];
    let cluster = graph.as_cluster("sub".to_string(), style.clone(), None);
    assert_eq!(cluster.id, "sub");
    assert_eq!(cluster.style, style);
    assert_eq!(cluster.items.len(), graph.items.len());
    for (in_cluster, in_graph) in cluster.items.iter().zip(graph.items.iter()) {
        assert_eq!(&**in_cluster, in_graph);
        assert_eq!(in_cluster.to_dot_string(), in_graph.to_dot_string());
    }
    assert_eq!(cluster.edges, graph.edges);
    assert_eq!(
        cluster.to_dot_string(),
        "subgraph cluster_sub {\nlabel=\"whole\";\n\ta [label=\"a\"];\n\tsubgraph cluster_c \
         {\n\tb;\n}\n\ta->b [lhead=cluster_c];\n}"
    );
}

#[test]
fn as_cluster_with_prefix_renames_items_and_edges_but_not_the_name() {
    let graph = sample_graph();
    let cluster = graph.as_cluster("sub".to_string(), vec![], Some("k1_".to_string()));
    assert_eq!(cluster.id, "sub");
    assert_eq!(
        cluster.to_dot_string(),
        "subgraph cluster_sub {\n\tk1_a [label=\"a\"];\n\tsubgraph cluster_k1_c \
         {\n\tk1_b;\n}\n\tk1_a->k1_b [lhead=cluster_k1_c];\n}"
    );
}

#[test]
fn as_cluster_does_not_touch_the_graph() {
    let graph = sample_graph();
    let before = graph.to_dot_string();
    let _ = graph.as_cluster("sub".to_string(), vec![], Some("k1_".to_string()));
    let _ = graph.as_cluster("sub".to_string(), vec![], None);
    assert_eq!(graph.to_dot_string(), before);
}

#[test]
fn one_graph_twice_in_another_under_two_prefixes() {
    let part = sample_graph();
    let mut whole = GraphVizDiGraph::new(vec![]);
    whole.add_cluster(part.as_cluster("left".to_string(), vec![], Some("l_".to_string())));
    whole.add_cluster(part.as_cluster("right".to_string(), vec![], Some("r_".to_string())));
    whole.add_edge(GraphVizEdge::new(
        "l_a".to_string(),
        Some("left".to_string()),
        "r_a".to_string(),
        Some("right".to_string()),
        vec![],
    ));
    assert_eq!(
        whole.to_dot_string(),
        "digraph G {\ncompound=true;\n\tsubgraph cluster_left {\n\tl_a [label=\"a\"];\n\tsubgraph \
         cluster_l_c {\n\tl_b;\n}\n\tl_a->l_b [lhead=cluster_l_c];\n}\n\tsubgraph cluster_right \
         {\n\tr_a [label=\"a\"];\n\tsubgraph cluster_r_c {\n\tr_b;\n}\n\tr_a->r_b \
         [lhead=cluster_r_c];\n}\n\tl_a->r_a [ltail=cluster_left,lhead=cluster_right];\n}"
    );
}

#[test]
fn get_specific_cluster_counts_clusters_only() {
    let mut graph = GraphVizDiGraph::new(vec![]);
    graph.add_node(node("a"));
    graph.add_cluster(empty_cluster("first"));
    graph.add_node(node("b"));
    graph.add_cluster(empty_cluster("second"));
    assert_eq!(graph.get_specific_cluster(0).map(|c| c.id.clone()), Some("first".to_string()));
    assert_eq!(graph.get_specific_cluster(1).map(|c| c.id.clone()), Some("second".to_string()));
    assert!(graph.get_specific_cluster(2).is_none());
    assert!(graph.get_specific_cluster(usize::MAX).is_none());
}

#[test]
fn get_specific_cluster_of_a_graph_without_clusters() {
    let mut graph = GraphVizDiGraph::new(vec![]);
    assert!(graph.get_specific_cluster(0).is_none());
    graph.add_node(node("a"));
    assert!(graph.get_specific_cluster(0).is_none());
}

#[test]
fn get_specific_cluster_lets_the_caller_add_to_it() {
    let mut graph = GraphVizDiGraph::new(vec![]);
    graph.add_cluster(empty_cluster("first"));
    graph.add_node(node("a"));
    graph.add_cluster(empty_cluster("second"));
    let second = graph.get_specific_cluster(1).expect("the graph has two clusters");
    second.add_node(node("inside"));
    second.add_edge(edge("inside", "a"));
    assert_eq!(
        graph.to_dot_string(),
        "digraph G {\ncompound=true;\n\tsubgraph cluster_first {\n}\n\ta;\n\tsubgraph \
         cluster_second {\n\tinside;\n\tinside->a;\n}\n}"
    );
}

/// Every identifier in the cluster: its own, those in its items at every
/// depth, and those that its edges name.
fn identifiers(cluster: &GraphVizCluster) -> Vec<String> {
    let mut ids = vec![cluster.id.clone()];
    for item in &cluster.items {
        match &**item {
            GraphVizGraphItem::Node(node) => ids.push(node.id.clone()),
            GraphVizGraphItem::Cluster(inner) => ids.extend(identifiers(inner)),
        }
    }
    for edge in &cluster.edges {
        ids.push(edge.origin_node_id.clone());
        ids.extend(edge.origin_cluster.clone());
        ids.push(edge.target_node_id.clone());
        ids.extend(edge.target_cluster.clone());
    }
    ids
}

#[test]
fn renamed_identifiers_are_the_prefix_and_the_old_identifier() {
    let old = identifiers(&nested());
    assert_eq!(
        old,
        vec!["outer", "top", "mid", "inner", "deep", "deep", "inner", "top", "top", "deep", "mid"]
    );
    let new = identifiers(&nested().rename_with_prefix("g_"));
    let expected: Vec<String> = old.iter().map(|id| format!("g_{}", id)).collect();
    assert_eq!(new, expected);
}

#[test]
fn renaming_keeps_different_identifiers_different() {
    let old = identifiers(&nested());
    let new = identifiers(&nested().rename_with_prefix("top"));
    for i in 0..old.len() {
        for j in 0..old.len() {
            assert_eq!(old[i] == old[j], new[i] == new[j]);
        }
    }
}

#[test]
fn prefixes_that_do_not_begin_with_each_other_share_no_identifier() {
    let left = identifiers(&nested().rename_with_prefix("l_"));
    let right = identifiers(&nested().rename_with_prefix("r_"));
    for id in &left {
        assert!(!right.contains(id));
    }
}

#[test]
fn a_prefix_that_begins_with_another_can_collide() {
    let mut first = empty_cluster("ab");
    first.add_node(node("n"));
    let mut second = empty_cluster("b");
    second.add_node(node("n"));
    let one = identifiers(&first.rename_with_prefix("x"));
    let other = identifiers(&second.rename_with_prefix("xa"));
    assert_eq!(one[0], other[0]);
}

#[test]
fn every_document_has_head_compound_line_and_closing_brace() {
    for graph in [GraphVizDiGraph::new(vec![]), sample_graph()] {
        let text = graph.to_dot_string();
        assert!(text.starts_with("digraph G {\ncompound=true;"));
        assert!(text.ends_with("\n}"));
    }
}
