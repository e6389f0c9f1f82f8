# nestix-native-appkit

The logic of the AppKit backend of Nestix Native, verified with Verus.

`src/` holds what the backend decides, each with a contract that Verus proves:
keyed registrations of toolbar items, navigation rows, list and table rows and
tree nodes (`registry`, `toolbar`, `navigation`, `collection`, `tree`), the
controlled selection of pop-up buttons (`select`), drag operations, pasteboard
types, drop target stacks and drag items (`drag`, `drag_source`,
`drop_session`), file picker panels and their results (`file_picker`), menu
rendering, key equivalents and menu bar slots (`menu`), window style masks
and content hosts (`window`), materials (`material`), the sidebar split view
(`sidebar`), the tray icon (`tray`), web view resources (`web_view`), button
appearance (`button`), font traits (`font`) and registration keys (`keys`).
Laws that span several operations are public proof functions beside them.

`app/` holds what Verus does not take: floating-point geometry, the
environment and file system, and the adapters that read AppKit's state into
plain values and apply the library's plans.

`tests/` runs the library on concrete values.
