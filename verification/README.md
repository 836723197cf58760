# vizia_plug

Parameter widgets and an editor for audio plugins built with NIH-plug and vizia.

- `src/` is the verified library. It holds every decision the widgets and the editor make:
  which host keys the editor claims and in what order it dispatches them (`editor`), which
  signal slot each parameter and axis owns and which slots a change refreshes
  (`widgets::param_registry`), how a slider and a button react to input and lay themselves out
  (`widgets::param_slider`, `widgets::param_button`), which parameters a generic UI shows
  (`widgets::generic_ui`) and the peak meter's scale (`widgets::peak_meter`). Each function
  states its result in its contract, and the properties that span several calls are proved as
  lemmas beside them.
- `app/` is the vizia and NIH-plug glue: the window, the views, the signals holding the
  floating-point parameter values, and the conversions between the host's and vizia's types and
  the library's.
- `tests/` runs the library on concrete inputs.
