# snapture

A Linux screenshot and annotation editor.

`src/` is the verified library, each part with a Verus contract: the undo/redo
history, the document's annotation list, the start-up decisions from the
command line, path and save dialog handling, the path of a captured
screenshot, text recognition with the OCRS engine and the cleanup of its
output, text utilities (trimming, line counts, decimal rendering), the integer
side of exporting and cropping, the canvas pointer decisions (crop handles,
cursors, where a drag or click goes) and the editor's tool and shortcut
decisions.

`app/` is the program around it: the egui window and canvas, the
floating-point annotation geometry, rasterising overlays, the screenshot
portal, the clipboard, loading the OCR models and file I/O.

Text recognition needs the OCRS model files `text-detection.rten` and
`text-recognition.rten` in a `models/` directory under the directory the
program was built from (the current directory when that is not known).
