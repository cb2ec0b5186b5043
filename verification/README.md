# booru_resources

The resources that an image board serves: posts, tags, comments and users, each with the fields
that a request selects. The library is written in Verus; its contracts say what each resource
holds, and Verus proves that the code keeps to them.

- `src/resource` makes resources out of rows that were loaded from a database.
  `resource::order_as`, `resource::order_transformed_as` and `resource::grouped_by` bring the rows
  into the order of the resources they belong to. Within the list of one resource the order of the
  rows is kept; the comments on the row types say which order to load. `resource::field` reads the
  list of selected fields.
- `src/extract.rs` holds what is taken out of a request, and the bounds on the size of a page.
- `src/resource/laws.rs` proves what holds of all batches: that a post is shown alike in each of them,
  and that more fields or another order change nothing else.
- `src/content` tells how a request body is encoded, and makes previews of PDF documents.
- `src/model.rs` and `src/config.rs` hold the stored records, and what is known of the site.
- `tests` runs the library.
- `app` is ordinary Rust around the library: extractors, the JSON forms of the resources, database
  queries, and the loading and drawing of PDF documents.

A function that makes resources requires that the rows of the selected fields are there. The
`is_complete` methods and `resource::is_orderable` test this, and `app` calls them first.

The library calls `hex`, `mime`, `image` and `hayro` through small functions whose contracts are
believed, not proved. They are marked `external_body`, and the comment above each says what it
claims of the call.
