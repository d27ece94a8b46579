# yukino

The query builder and entity resolution of the yukino ORM, verified with
Verus.

- `state`, `text`: the token state a query renders into, the `ToSql` and
  `BindArgs` traits, and the texts of numbers and joined lists.
- `value`, `ident`: the values a query carries and the names it uses.
- `expr`, `select`, `update`, `delete`, `insert`: the query trees, their
  SQL tokens (with `?` placeholders), their display texts and the values
  bound for the placeholders. For `SELECT` and `UPDATE`, the
  laws `law_*_placeholders_match_bound_values` state that placeholders
  and bound values correspond one for one, in order, under the provisos
  their `requires` state (for `UPDATE`: no assigned value of its own,
  since assigned values are rendered but not bound). For `INSERT`,
  `law_insert_placeholders_match_values` states that the `VALUES` text
  holds as many `?` as the rows bind values, and that row `i` binds the
  values at positions `i * width .. (i + 1) * width`, provided every row
  binds as many values as its type declares.
- `definition`, `entity`: how an entity is stored, and the traits of
  entities.
- `types`, `fields`, `resolve`: the entity derive's reading of field
  types and of entity structs, over models of Rust types.
- `view_resolver`, `view`, `tag`: the unwrapping of view closure
  parameters (with the position of a refused sub-pattern), sort keys,
  vertical views, and the type-level tag lists of views.

`app/` holds what cannot be verified: binding values on sqlx queries,
conversions from the database crates' value types, the error type with
its `std::error::Error` impl, and the code templates of the derive.

The entity derive stores each field in a column named as the field, and
it accepts the primary-key attribute both as `#[id]` and as `#[ID]`.
