# crudkit-leptos (verified core)

The state and decision logic of a CRUD user interface kit, written in Verus and proved
against its contracts:

- `pagination`, `order`, `selection`: page counts and page buttons, the ordering of the
  list view, and the rows the user selected.
- `instance`, `instance_component`, `instance_config`, `instance_mgr`: the state of a CRUD
  instance, the messages it handles, and the registry of instances on a page.
- `edit_view`, `create_view`, `view_logic`, `related_field`, `renderer_registry`: what the views decide when
  the user edits, saves or leaves.
- `action`, `action_context`, `delete`, `toast`, `toasts`, `button`: actions, their
  bookkeeping, notifications and buttons.

`app/` holds what stays outside the proofs: serializable copies of the configuration
types and the stamping of notifications with a random id and the current time.
`tests/` exercises the library on concrete values.
