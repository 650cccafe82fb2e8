use heartscene::geometry::GeometryStore;

#[test]
fn ten_vertices_and_seven_triangles() {
    let g = GeometryStore::new();
    assert_eq!(g.vertices().len(), 10);
    assert_eq!(g.indices().len(), 21);
    assert_eq!(g.index_count(), 21);
    assert_eq!(g.indices().len() % 3, 0);
}

#[test]
fn every_index_names_an_existing_vertex() {
    let g = GeometryStore::new();
    for &i in g.indices.iter() {
        assert!((i as usize) < g.vertices.len());
    }
}

#[test]
fn authored_coordinates_are_the_fixed_constant() {
    let g = GeometryStore::new();
    // The bottom tip of the silhouette.
    assert_eq!((g.vertices[0].px, g.vertices[0].py, g.vertices[0].pz), (0, -600_000, 0));
    // The waist vertices.
    assert_eq!((g.vertices[4].px, g.vertices[4].py), (-120_000, 410_000));
    assert_eq!((g.vertices[5].px, g.vertices[5].py), (120_000, 410_000));
    // The highest points of the two halves.
    assert_eq!((g.vertices[8].px, g.vertices[8].py), (-375_000, 575_000));
    assert_eq!((g.vertices[9].px, g.vertices[9].py), (375_000, 575_000));
    // All vertices share one purple color.
    for v in g.vertices.iter() {
        assert_eq!((v.cr, v.cg, v.cb), (500_000, 0, 500_000));
    }
    // The base triangle is the last index triple.
    assert_eq!(&g.indices[18..21], &[2, 0, 3]);
}
