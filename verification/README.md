# quecksilber

Instrument-panel widgets in the style of the Mercury spacecraft consoles.

`src/` is the verified library (Verus): the status enumerations and their
textual forms, the colour palette and its selection by status, the faces of
the async-action, guarded and toggle buttons, the annunciator panel layout,
the indicator colour animation plan, the event timer's clock arithmetic and
read-out, dial scale tick layouts, option selection with clamping and drag
steps, lever-switch label placement, and the screenshot catalogue.

`app/` is the iced rendering around it: floating-point geometry, spring and
colour animation, and the canvas and widget trait implementations, plus the
screenshot tool.
