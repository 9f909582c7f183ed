use vstd::prelude::*;

verus! {

/// The read-only set of filename extensions (without the dot) whose files
/// are compressed.
pub struct ExtensionFilter {
    extensions: Vec<String>,
}

/// The extensions of static web content compressed by default.
pub open spec fn standard_extensions() -> Seq<Seq<char>> {
    seq![
        "html"@, "htm"@, "css"@, "js"@, "mjs"@, "cjs"@, "map"@, "json"@, "xml"@, "ldjson"@,
        "txt"@, "csv"@, "tsv"@, "md"@, "adoc"@, "wasm"@, "ico"@, "svg"@, "pdf"@, "gpx"@,
        "atom"@, "kml"@, "geojson"@, "pbf"@, "gltf"@, "glb"@, "bin"@, "ts"@, "xsd"@, "xslt"@,
        "dtd"@, "manifest"@,
    ]
}

impl View for ExtensionFilter {
    type V = Set<Seq<char>>;

    closed spec fn view(&self) -> Set<Seq<char>> {
        Set::new(|e: Seq<char>| exists|i: int| 0 <= i < self.extensions@.len() && #[trigger] self.extensions@[i]@ == e)
    }
}

impl ExtensionFilter {
    /// A filter that admits exactly the given extensions.
    pub fn new(extensions: Vec<String>) -> (r: Self)
        ensures
            forall|e: Seq<char>| #[trigger] r@.contains(e) <==> exists|i: int| 0 <= i < extensions@.len() && #[trigger] extensions@[i]@ == e,
    {
        ExtensionFilter { extensions }
    }

    /// The filter of the standard web content extensions.
    pub fn standard() -> (r: Self)
        ensures
            forall|e: Seq<char>| #[trigger] r@.contains(e) <==> standard_extensions().contains(e),
    {
        let names: Vec<&str> = vec![
            "html", "htm", "css", "js", "mjs", "cjs", "map", "json", "xml", "ldjson",
            "txt", "csv", "tsv", "md", "adoc", "wasm", "ico", "svg", "pdf", "gpx",
            "atom", "kml", "geojson", "pbf", "gltf", "glb", "bin", "ts", "xsd", "xslt",
            "dtd", "manifest",
        ];
        let mut extensions: Vec<String> = Vec::new();
        let mut i: usize = 0;
        while i < names.len()
            invariant
                i <= names@.len(),
                names@.len() == standard_extensions().len(),
                forall|k: int| 0 <= k < names@.len() ==> #[trigger] names@[k]@ == standard_extensions()[k],
                extensions@.len() == i,
                forall|k: int| 0 <= k < i ==> #[trigger] extensions@[k]@ == standard_extensions()[k],
            decreases names@.len() - i,
        {
            extensions.push(String::from_str(names[i]));
            i = i + 1;
        }
        let r = ExtensionFilter { extensions };
        assert forall|e: Seq<char>| #[trigger] r@.contains(e) <==> standard_extensions().contains(e) by {
            if standard_extensions().contains(e) {
                let k = choose|k: int| 0 <= k < standard_extensions().len() && standard_extensions()[k] == e;
                assert(r.extensions@[k]@ == e);
            }
        }
        r
    }

    /// Whether files with extension `extension` are compressed.
    pub fn contains(&self, extension: &str) -> (r: bool)
        ensures
            r == self@.contains(extension@),
    {
        let wanted = extension.to_owned();
        let mut i: usize = 0;
        while i < self.extensions.len()
            invariant
                i <= self.extensions@.len(),
                wanted@ == extension@,
                forall|k: int| 0 <= k < i ==> #[trigger] self.extensions@[k]@ != extension@,
            decreases self.extensions@.len() - i,
        {
            if self.extensions[i] == wanted {
                return true;
            }
            i = i + 1;
        }
        false
    }
}

} // verus!
