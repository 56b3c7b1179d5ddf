# fractal

Explore and draw fractals: Lindenmayer-system curves (Cesàro, Koch, Lévy C, terdragon), the
dragon curve, escape time fractals (Mandelbrot, burning ship and relatives) and chaos games
(Sierpiński triangle, Barnsley fern), rendered in a window.

## Layout

- `src/` is the library, verified with Verus. It holds the integer and symbolic parts of the
  program, each with its contract:
  - `lindenmayer.rs`: Lindenmayer systems, the generation of their strings and a caching
    decorator, proved to derive the same strings as the system it wraps;
  - `curves/`: the rules of the curves, the dragon curve's fold count and turn sequence and its
    turtle program, and the lookup of a curve by name;
  - `lib.rs`, `fractaldata.rs`: the catalogue of fractals, their command line tokens, and the
    configuration of the selected fractal (the triangle Cesàro fractal answers to both
    `cesarotri` and `cestarotri`);
  - `escapetime/`, `color.rs`: the parameters of the escape time fractals and their colour
    gradient;
  - `animation.rs`: the decisions of the animated, double-buffered renderers;
  - `interactive.rs`: the model of an interactive interface (selection, configuration, and the
    status of the running animation) and what each message makes it do;
  - `work_multiplexer.rs`: how rendering work is shared among worker threads.
- `app/` is the program around it: the window and event loop (piston), the command line
  (clap), worker threads, and everything that computes with floating point numbers (geometry,
  turtles, the escape time iteration, chaos games, colour interpolation).
- `tests/` exercises the library.
