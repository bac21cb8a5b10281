# music

A camera-driven musical instrument: each hand's fingers play five notes,
a finger sounds while it is bent, and the hand's height picks the octave.

`src/` is the verified library (Verus): finger debouncing (`debounce`),
per-frame hand tracking decisions (`tracking`), voice control (`voices`),
the palm detector's anchor grid (`anchors`), pixel rectangles and padding
(`geometry`), decoding of the palm detector's output layout and ordering
(`palm_decode`), the hand landmark layout (`landmarks`), and the capture and
main-loop state machines (`capture`, `session`).

`app/` is the program around it: camera and recorder threads, OpenCV model
inference and drawing, audio synthesis with rodio, and all floating-point
geometry.
